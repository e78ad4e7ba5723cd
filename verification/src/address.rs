//! Identities, 32-byte words and the approvals that accompany an invocation.
use vstd::prelude::*;
use vstd::slice::slice_to_vec;
use vstd::std_specs::cmp::PartialEqSpecImpl;
use crate::table::Plain;

verus! {

/// The identifier of an account or of a contract: the unit of authorization.
///
/// Two addresses are the same principal exactly when their identifiers hold
/// the same bytes.
#[derive(Debug)]
pub struct Address {
    id: Vec<u8>,
}

impl View for Address {
    type V = Seq<u8>;

    closed spec fn view(&self) -> Seq<u8> {
        self.id@
    }
}

impl Address {
    /// The address with the identifier `id`.
    pub fn from_bytes(id: &[u8]) -> (address: Address)
        ensures
            address@ == id@,
    {
        Address { id: slice_to_vec(id) }
    }

    /// The identifier of this address.
    pub fn as_bytes(&self) -> (id: &[u8])
        ensures
            id@ == self@,
    {
        self.id.as_slice()
    }

    /// The address whose identifier is this one followed by `suffix`.
    pub fn extended(&self, suffix: &[u8]) -> (address: Address)
        ensures
            address@ == self@ + suffix@,
    {
        let mut id: Vec<u8> = slice_to_vec(self.id.as_slice());
        let mut i: usize = 0;
        while i < suffix.len()
            invariant
                i <= suffix@.len(),
                id@ == self.id@ + suffix@.subrange(0, i as int),
            decreases suffix@.len() - i,
        {
            id.push(suffix[i]);
            proof {
                assert(id@ =~= self.id@ + suffix@.subrange(0, i + 1));
            }
            i += 1;
        }
        proof {
            assert(suffix@.subrange(0, i as int) =~= suffix@);
        }
        Address { id }
    }
}

impl Clone for Address {
    fn clone(&self) -> (copy: Address)
        ensures
            copy@ == self@,
    {
        Address { id: slice_to_vec(self.id.as_slice()) }
    }
}

impl PartialEq for Address {
    fn eq(&self, other: &Address) -> (same: bool) {
        let same = self.id == other.id;
        proof {
            assert(same == (self.id@ =~= other.id@));
        }
        same
    }
}

impl Eq for Address {}

impl PartialEqSpecImpl for Address {
    open spec fn obeys_eq_spec() -> bool {
        true
    }

    open spec fn eq_spec(&self, other: &Address) -> bool {
        self@ == other@
    }
}

impl Plain for Address {
    fn same(&self, other: &Address) -> (same: bool) {
        *self == *other
    }

    fn duplicate(&self) -> (copy: Address) {
        self.clone()
    }
}

/// The identifiers of `list`, in order.
pub open spec fn ids(list: Seq<Address>) -> Seq<Seq<u8>> {
    Seq::new(list.len(), |i: int| list[i]@)
}

/// The identifier of `address`, if there is one.
pub open spec fn id_of(address: Option<Address>) -> Option<Seq<u8>> {
    match address {
        Some(address) => Some(address@),
        None => None,
    }
}

/// The identifiers of `list`, if there is one.
pub open spec fn ids_of(list: Option<Vec<Address>>) -> Option<Seq<Seq<u8>>> {
    match list {
        Some(list) => Some(ids(list@)),
        None => None,
    }
}

/// The characters of `text`, if there is one.
pub open spec fn text_of(text: Option<String>) -> Option<Seq<char>> {
    match text {
        Some(text) => Some(text@),
        None => None,
    }
}

/// Where `address` first stands in `list`.
pub fn position(list: &Vec<Address>, address: &Address) -> (found: Option<usize>)
    ensures
        found is Some <==> ids(list@).contains(address@),
        found matches Some(i) ==> {
            &&& i < list@.len()
            &&& list@[i as int]@ == address@
            &&& ids(list@).index_of_first(address@) == Some(i as int)
        },
{
    let mut i: usize = 0;
    while i < list.len()
        invariant
            i <= list@.len(),
            forall|j: int| 0 <= j < i ==> list@[j]@ != address@,
        decreases list@.len() - i,
    {
        if list[i] == *address {
            proof {
                let all = ids(list@);
                all.index_of_first_ensures(address@);
                assert(all[i as int] == address@);
                let first = all.index_of_first(address@)->0;
                assert(all[first] == list@[first]@);
            }
            return Some(i);
        }
        i += 1;
    }
    proof {
        let all = ids(list@);
        assert forall|j: int| 0 <= j < all.len() implies all[j] != address@ by {
            assert(all[j] == list@[j]@);
        }
    }
    None
}

/// A copy of `list`, address by address.
pub fn copy_list(list: &Vec<Address>) -> (copy: Vec<Address>)
    ensures
        ids(copy@) == ids(list@),
{
    let mut copy: Vec<Address> = Vec::new();
    let mut i: usize = 0;
    while i < list.len()
        invariant
            i <= list@.len(),
            copy@.len() == i,
            forall|j: int| 0 <= j < i ==> copy@[j]@ == list@[j]@,
        decreases list@.len() - i,
    {
        copy.push(list[i].clone());
        i += 1;
    }
    proof {
        assert(ids(copy@) =~= ids(list@));
    }
    copy
}

/// The principals that approved the invocation at hand.
///
/// An operation that needs the consent of an address looks it up here and
/// nowhere else.
#[derive(Debug)]
pub struct Approvals {
    principals: Vec<Address>,
}

impl View for Approvals {
    type V = Set<Seq<u8>>;

    closed spec fn view(&self) -> Set<Seq<u8>> {
        ids(self.principals@).to_set()
    }
}

impl Approvals {
    /// Nobody approved.
    pub fn none() -> (approvals: Approvals)
        ensures
            approvals@ == Set::<Seq<u8>>::empty(),
    {
        let approvals = Approvals { principals: Vec::new() };
        proof {
            assert(approvals@ =~= Set::<Seq<u8>>::empty());
        }
        approvals
    }

    /// `address` approved, and nobody else.
    pub fn of(address: &Address) -> (approvals: Approvals)
        ensures
            approvals@ == Set::<Seq<u8>>::empty().insert(address@),
    {
        let mut approvals = Approvals::none();
        approvals.add(address);
        approvals
    }

    /// `address` approved as well.
    pub fn add(&mut self, address: &Address)
        ensures
            final(self)@ == old(self)@.insert(address@),
    {
        let ghost before = self.principals@;
        self.principals.push(address.clone());
        proof {
            let after = self.principals@;
            assert(ids(after) =~= ids(before).push(address@));
            assert forall|id: Seq<u8>|
                ids(after).to_set().contains(id) == ids(before).to_set().insert(
                    address@,
                ).contains(id) by {
                if ids(before).contains(id) {
                    let j = ids(before).index_of(id);
                    assert(ids(after)[j] == id);
                }
                if id == address@ {
                    assert(ids(after)[before.len() as int] == id);
                }
            }
            assert(ids(after).to_set() =~= ids(before).to_set().insert(address@));
        }
    }

    /// Whether `address` approved.
    pub fn includes(&self, address: &Address) -> (approved: bool)
        ensures
            approved == self@.contains(address@),
    {
        position(&self.principals, address).is_some()
    }
}

/// A word of 32 bytes: the hash of uploaded code, or the salt of a deployment.
#[derive(Clone, Copy, Debug)]
pub struct Bytes32 {
    bytes: [u8; 32],
}

impl View for Bytes32 {
    type V = Seq<u8>;

    closed spec fn view(&self) -> Seq<u8> {
        self.bytes@
    }
}

impl Bytes32 {
    /// The word that holds `bytes`.
    pub fn from_array(bytes: [u8; 32]) -> (word: Bytes32)
        ensures
            word@ == bytes@,
    {
        Bytes32 { bytes }
    }

    /// The bytes of this word.
    pub fn to_array(&self) -> (bytes: [u8; 32])
        ensures
            bytes@ == self@,
    {
        self.bytes
    }

    /// The bytes of this word, borrowed.
    pub fn as_bytes(&self) -> (bytes: &[u8])
        ensures
            bytes@ == self@,
    {
        self.bytes.as_slice()
    }

    /// A word always holds 32 bytes.
    pub proof fn lemma_len(self)
        ensures
            self@.len() == 32,
    {
    }
}

impl Plain for Bytes32 {
    fn same(&self, other: &Bytes32) -> (same: bool) {
        let mut i: usize = 0;
        while i < 32
            invariant
                i <= 32,
                forall|j: int| 0 <= j < i ==> self.bytes@[j] == other.bytes@[j],
            decreases 32 - i,
        {
            if self.bytes[i] != other.bytes[i] {
                return false;
            }
            i += 1;
        }
        proof {
            assert(self.bytes@ =~= other.bytes@);
        }
        true
    }

    fn duplicate(&self) -> (copy: Bytes32) {
        *self
    }
}

} // verus!
