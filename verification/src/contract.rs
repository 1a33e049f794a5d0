//! Contract identifiers.

use std::str::FromStr;
use vstd::prelude::*;
use vstd::std_specs::cmp::PartialEqSpec;

verus! {

/// The identifier of an RGB contract.
#[derive(Debug, Clone, Copy, Eq, Hash)]
pub struct ContractId {
    pub bytes: [u8; 32],
}

impl View for ContractId {
    type V = Seq<u8>;

    open spec fn view(&self) -> Seq<u8> {
        self.bytes@
    }
}

/// Whether two arrays hold the same bytes.
pub(crate) fn same_bytes(a: &[u8; 32], b: &[u8; 32]) -> (r: bool)
    ensures
        r == (a@ == b@),
{
    let mut i: usize = 0;
    while i < 32
        invariant
            i <= 32,
            forall|j: int| 0 <= j < i ==> a@[j] == b@[j],
        decreases 32 - i,
    {
        if a[i] != b[i] {
            assert(a@[i as int] != b@[i as int]);
            return false;
        }
        i += 1;
    }
    assert(a@ =~= b@);
    true
}

impl PartialEq for ContractId {
    fn eq(&self, other: &ContractId) -> (r: bool) {
        same_bytes(&self.bytes, &other.bytes)
    }
}

impl vstd::std_specs::cmp::PartialEqSpecImpl for ContractId {
    open spec fn obeys_eq_spec() -> bool {
        true
    }

    open spec fn eq_spec(&self, other: &ContractId) -> bool {
        self.bytes@ == other.bytes@
    }
}

/// The text of a contract identifier, as `hypersonic` displays it.
pub uninterp spec fn contract_text(bytes: Seq<u8>) -> Seq<char>;

/// The contract identifier that `hypersonic` reads from a text, or the text of the error.
pub uninterp spec fn contract_of_text(text: Seq<char>) -> Result<Seq<u8>, Seq<char>>;

/// Whether a text is read as the identifier with these bytes.
pub open spec fn names_contract(text: Seq<char>, bytes: Seq<u8>) -> bool {
    contract_of_text(text) matches Ok(found) && found == bytes
}

/// `hypersonic::ContractId` displayed: the text is given the name `contract_text`, and reading
/// it gives the identifier back.
#[verifier::external_body]
fn display_contract(bytes: &[u8; 32]) -> (r: String)
    ensures
        r@ == contract_text(bytes@),
        names_contract(r@, bytes@),
{
    hypersonic::ContractId::from(*bytes).to_string()
}

/// `hypersonic::ContractId::from_str`: what is read, or the text of the error, is given the
/// name `contract_of_text`.
#[verifier::external_body]
fn read_contract(text: &str) -> (r: Result<[u8; 32], String>)
    ensures
        match r {
            Ok(bytes) => contract_of_text(text@) == Ok::<_, Seq<char>>(bytes@),
            Err(e) => contract_of_text(text@) == Err::<Seq<u8>, _>(e@),
        },
{
    match hypersonic::ContractId::from_str(text) {
        Ok(id) => Ok(id[..].try_into().expect("a contract identifier has 32 bytes")),
        Err(e) => Err(e.to_string()),
    }
}

impl ContractId {
    /// The text of the identifier.
    pub fn text(&self) -> (r: String)
        ensures
            r@ == contract_text(self@),
            names_contract(r@, self@),
    {
        display_contract(&self.bytes)
    }

    /// The identifier that `text` names, or the reason why it names none.
    pub fn from_text(text: &str) -> (r: Result<ContractId, String>)
        ensures
            match r {
                Ok(id) => contract_of_text(text@) == Ok::<_, Seq<char>>(id@),
                Err(e) => contract_of_text(text@) == Err::<Seq<u8>, _>(e@),
            },
    {
        match read_contract(text) {
            Ok(bytes) => Ok(ContractId { bytes }),
            Err(e) => Err(e),
        }
    }
}

/// Two identifiers are the same if and only if they have the same bytes, which are what they say.
pub proof fn law_contract_ids(a: ContractId, b: ContractId)
    ensures
        a.eq_spec(&b) <==> a.bytes@ == b.bytes@,
        a@ == a.bytes@,
        a@ == b@ ==> a == b,
{
    if a@ == b@ {
        assert(a.bytes =~= b.bytes);
    }
}

} // verus!
