//! Account identifiers, and the stored form of an optional identifier.

use crate::error::RebaseError;
use vstd::prelude::*;

verus! {

/// The bytes of the identifier that stands for "none": 32 zero bytes.
pub open spec fn zero_key_bytes() -> Seq<u8> {
    Seq::new(32, |i: int| 0u8)
}

/// The identifier of an account or of a program: 32 bytes.
#[derive(Clone, Copy, Debug, PartialEq, Eq)]
pub struct Pubkey {
    pub bytes: [u8; 32],
}

impl View for Pubkey {
    type V = Seq<u8>;

    open spec fn view(&self) -> Seq<u8> {
        self.bytes@
    }
}

impl Pubkey {
    /// The identifier with the given bytes.
    pub fn new_from_array(bytes: [u8; 32]) -> (key: Pubkey)
        ensures
            key.bytes == bytes,
            key@ == bytes@,
    {
        Pubkey { bytes }
    }

    /// The bytes of the identifier.
    pub fn to_bytes(&self) -> (bytes: [u8; 32])
        ensures
            bytes == self.bytes,
            bytes@ == self@,
    {
        self.bytes
    }

    /// Whether two identifiers agree in every byte.
    pub fn equals(&self, other: &Pubkey) -> (same: bool)
        ensures
            same == (self@ == other@),
            same == (*self == *other),
    {
        let mut i: usize = 0;
        while i < 32
            invariant
                i <= 32,
                forall|j: int| 0 <= j < i ==> self.bytes@[j] == other.bytes@[j],
            decreases 32 - i,
        {
            if self.bytes[i] != other.bytes[i] {
                assert(self@[i as int] != other@[i as int]);
                return false;
            }
            i += 1;
        }
        assert(self.bytes@ =~= other.bytes@);
        assert(self.bytes =~= other.bytes);
        true
    }
}

impl Default for Pubkey {
    /// The identifier of 32 zero bytes.
    fn default() -> (key: Pubkey)
        ensures
            key@ == zero_key_bytes(),
    {
        let bytes = [0u8; 32];
        assert(bytes@ =~= zero_key_bytes());
        Pubkey { bytes }
    }
}

/// An optional identifier in its stored form: 32 bytes, of which the all-zero
/// value means that no identifier is set.
#[derive(Clone, Copy, Debug, PartialEq, Eq)]
pub struct OptionalNonZeroPubkey(pub Pubkey);

impl OptionalNonZeroPubkey {
    /// The identifier that is stored, if one is.
    pub open spec fn key(self) -> Option<Pubkey> {
        if self.0@ == zero_key_bytes() {
            None
        } else {
            Some(self.0)
        }
    }

    /// The stored form of an optional identifier: the one that reads back
    /// as `key`. There is one for every `key` but the identifier of 32 zero
    /// bytes.
    pub open spec fn stored(key: Option<Pubkey>) -> OptionalNonZeroPubkey {
        choose|stored: OptionalNonZeroPubkey| stored.key() == key
    }

    /// Two stored forms that read back as the same optional identifier are
    /// the same.
    pub proof fn lemma_key_determines_stored(self, other: OptionalNonZeroPubkey)
        requires
            self.key() == other.key(),
        ensures
            self == other,
    {
        if self.key() is None {
            assert(self.0@ =~= other.0@);
            assert(self.0.bytes =~= other.0.bytes);
        }
    }

    /// A stored form is the stored form of what it reads back as.
    pub proof fn lemma_stored_of_key(self)
        ensures
            Self::stored(self.key()) == self,
    {
        Self::stored(self.key()).lemma_key_determines_stored(self);
    }

    /// The stored form of `key`. An identifier of 32 zero bytes cannot be
    /// stored, because it would read back as "none".
    pub fn try_from_option(key: Option<Pubkey>) -> (stored: Result<OptionalNonZeroPubkey, RebaseError>)
        ensures
            stored is Ok <==> !(key is Some && key->0@ == zero_key_bytes()),
            stored is Err ==> stored == Err::<OptionalNonZeroPubkey, RebaseError>(
                RebaseError::InvalidArgument,
            ),
            stored is Ok ==> stored->Ok_0 == Self::stored(key),
            stored is Ok ==> stored->Ok_0.key() == key,
            stored is Ok && key is None ==> stored->Ok_0.0@ == zero_key_bytes(),
    {
        let given = match key {
            Some(k) => Some(k.bytes),
            None => None,
        };
        match pod_key_from_option(given) {
            Some(bytes) => {
                let stored = OptionalNonZeroPubkey(Pubkey { bytes });
                proof {
                    stored.lemma_stored_of_key();
                }
                Ok(stored)
            },
            None => Err(RebaseError::InvalidArgument),
        }
    }

    /// The identifier that is stored, if one is.
    pub fn to_option(&self) -> (key: Option<Pubkey>)
        ensures
            key == self.key(),
    {
        match pod_key_to_option(self.0.bytes) {
            Some(bytes) => {
                assert(bytes =~= self.0.bytes);
                Some(Pubkey { bytes })
            },
            None => None,
        }
    }
}

impl Default for OptionalNonZeroPubkey {
    /// The stored form of no identifier: 32 zero bytes.
    fn default() -> (stored: OptionalNonZeroPubkey)
        ensures
            stored.0@ == zero_key_bytes(),
            stored.key() is None,
            stored == OptionalNonZeroPubkey::stored(None),
    {
        let stored = OptionalNonZeroPubkey(Pubkey::default());
        proof {
            stored.lemma_stored_of_key();
        }
        stored
    }
}

/// Calls `spl_pod::optional_keys::OptionalNonZeroPubkey::try_from` on an
/// `Option<Pubkey>` and hands back the bytes that it stores. The contract
/// says what that conversion does: no identifier is stored as 32 zero bytes,
/// an identifier of 32 zero bytes is refused, any other is stored as it is.
#[verifier::external_body]
fn pod_key_from_option(key: Option<[u8; 32]>) -> (stored: Option<[u8; 32]>)
    ensures
        key is None ==> stored is Some && stored->0@ == zero_key_bytes(),
        key is Some && key->0@ == zero_key_bytes() ==> stored is None,
        key is Some && key->0@ != zero_key_bytes() ==> stored == key,
{
    let given = key.map(solana_program::pubkey::Pubkey::new_from_array);
    match spl_pod::optional_keys::OptionalNonZeroPubkey::try_from(given) {
        Ok(pod) => Some(pod.0.to_bytes()),
        Err(_) => None,
    }
}

/// Calls the conversion of `spl_pod::optional_keys::OptionalNonZeroPubkey`
/// into `Option<Pubkey>` on the stored bytes. The contract says what that
/// conversion does: 32 zero bytes read as no identifier, any other value as
/// the identifier with those bytes.
#[verifier::external_body]
fn pod_key_to_option(stored: [u8; 32]) -> (key: Option<[u8; 32]>)
    ensures
        stored@ == zero_key_bytes() ==> key is None,
        stored@ != zero_key_bytes() ==> key == Some(stored),
{
    let pod = spl_pod::optional_keys::OptionalNonZeroPubkey(
        solana_program::pubkey::Pubkey::new_from_array(stored),
    );
    Option::<solana_program::pubkey::Pubkey>::from(pod).map(|k| k.to_bytes())
}

} // verus!
