//! The credential table and the byte-exact comparison the agent uses for the
//! RFC 1929 username/password subnegotiation.

use vstd::prelude::*;

verus! {

/// One accepted username/password pair.  Both fields are raw bytes;
/// equality against what a client sends is byte-exact.
pub struct Credential {
    pub user: Vec<u8>,
    pub pass: Vec<u8>,
}

/// Mathematical form of a credential: the two byte sequences.
pub struct CredentialModel {
    pub user: Seq<u8>,
    pub pass: Seq<u8>,
}

impl View for Credential {
    type V = CredentialModel;

    open spec fn view(&self) -> CredentialModel {
        CredentialModel { user: self.user@, pass: self.pass@ }
    }
}

/// The table as a sequence of credential models.
pub open spec fn table_model(t: Seq<Credential>) -> Seq<CredentialModel> {
    t.map_values(|c: Credential| c@)
}

/// Whether the table holds a pair whose username and password are both
/// byte-equal to the given ones.
pub open spec fn has_credential(table: Seq<CredentialModel>, user: Seq<u8>, pass: Seq<u8>) -> bool {
    exists|i: int| 0 <= i < table.len() && table[i].user == user && table[i].pass == pass
}

/// Byte-exact equality of two byte vectors.
pub fn bytes_eq(a: &Vec<u8>, b: &Vec<u8>) -> (r: bool)
    ensures
        r == (a@ == b@),
{
    if a.len() != b.len() {
        return false;
    }
    let mut i: usize = 0;
    while i < a.len()
        invariant
            a@.len() == b@.len(),
            i <= a@.len(),
            forall|j: int| 0 <= j < i ==> a@[j] == b@[j],
        decreases a@.len() - i,
    {
        if a[i] != b[i] {
            return false;
        }
        i += 1;
    }
    proof {
        assert(a@ =~= b@);
    }
    true
}

/// Whether the submitted username and password match an entry of the table,
/// both fields compared byte-exactly.
pub fn check_credentials(table: &Vec<Credential>, user: &Vec<u8>, pass: &Vec<u8>) -> (r: bool)
    ensures
        r == has_credential(table_model(table@), user@, pass@),
{
    let mut i: usize = 0;
    while i < table.len()
        invariant
            i <= table@.len(),
            forall|j: int| 0 <= j < i
                ==> !(table@[j]@.user == user@ && table@[j]@.pass == pass@),
        decreases table@.len() - i,
    {
        if bytes_eq(&table[i].user, user) && bytes_eq(&table[i].pass, pass) {
            proof {
                assert(table_model(table@)[i as int] == table@[i as int]@);
            }
            return true;
        }
        i += 1;
    }
    proof {
        assert forall|j: int| 0 <= j < table@.len()
            implies !(table_model(table@)[j].user == user@ && table_model(table@)[j].pass == pass@)
        by {
            assert(table_model(table@)[j] == table@[j]@);
        }
    }
    false
}

} // verus!
