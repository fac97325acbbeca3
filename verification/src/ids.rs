//! Identifiers that the rest of the library carries around and compares.

use vstd::prelude::*;

verus! {

/// Identity of a dataset, in its `did:odf:` textual form.
#[derive(Debug)]
pub struct DatasetID {
    pub did: String,
}

/// Identity of an account.
#[derive(Debug)]
pub struct AccountID {
    pub did: String,
}

/// Self-describing hash of a block or of an object, in its textual form.
#[derive(Debug)]
pub struct Multihash {
    pub text: String,
}

/// Identity of a flow.
#[derive(Debug, Clone, Copy, PartialEq, Eq, Structural)]
pub struct FlowID {
    pub id: u64,
}

/// Identity of a task.
#[derive(Debug, Clone, Copy, PartialEq, Eq, Structural)]
pub struct TaskID {
    pub id: u64,
}

/// Position of an event in an event store.
#[derive(Debug, Clone, Copy, PartialEq, Eq, Structural)]
pub struct EventID {
    pub id: i64,
}

impl View for DatasetID {
    type V = Seq<char>;

    open spec fn view(&self) -> Seq<char> {
        self.did@
    }
}

impl View for AccountID {
    type V = Seq<char>;

    open spec fn view(&self) -> Seq<char> {
        self.did@
    }
}

impl View for Multihash {
    type V = Seq<char>;

    open spec fn view(&self) -> Seq<char> {
        self.text@
    }
}

impl View for FlowID {
    type V = FlowID;

    open spec fn view(&self) -> FlowID {
        *self
    }
}

impl View for TaskID {
    type V = TaskID;

    open spec fn view(&self) -> TaskID {
        *self
    }
}

impl Clone for DatasetID {
    fn clone(&self) -> (r: Self)
        ensures
            r == *self,
    {
        DatasetID { did: self.did.clone() }
    }
}

impl Clone for AccountID {
    fn clone(&self) -> (r: Self)
        ensures
            r == *self,
    {
        AccountID { did: self.did.clone() }
    }
}

impl Clone for Multihash {
    fn clone(&self) -> (r: Self)
        ensures
            r == *self,
    {
        Multihash { text: self.text.clone() }
    }
}

impl PartialEq for DatasetID {
    fn eq(&self, other: &Self) -> (r: bool) {
        self.did == other.did
    }
}

impl vstd::std_specs::cmp::PartialEqSpecImpl for DatasetID {
    open spec fn obeys_eq_spec() -> bool {
        true
    }

    open spec fn eq_spec(&self, other: &Self) -> bool {
        self@ == other@
    }
}

impl Eq for DatasetID {

}

impl PartialEq for AccountID {
    fn eq(&self, other: &Self) -> (r: bool) {
        self.did == other.did
    }
}

impl vstd::std_specs::cmp::PartialEqSpecImpl for AccountID {
    open spec fn obeys_eq_spec() -> bool {
        true
    }

    open spec fn eq_spec(&self, other: &Self) -> bool {
        self@ == other@
    }
}

impl Eq for AccountID {

}

impl PartialEq for Multihash {
    fn eq(&self, other: &Self) -> (r: bool) {
        self.text == other.text
    }
}

impl vstd::std_specs::cmp::PartialEqSpecImpl for Multihash {
    open spec fn obeys_eq_spec() -> bool {
        true
    }

    open spec fn eq_spec(&self, other: &Self) -> bool {
        self@ == other@
    }
}

impl Eq for Multihash {

}

/// The views of a sequence of datasets.
pub open spec fn dataset_views(ids: Seq<DatasetID>) -> Seq<Seq<char>> {
    ids.map_values(|id: DatasetID| id@)
}

/// Whether `id` is among `ids`.
pub fn contains_dataset(ids: &Vec<DatasetID>, id: &DatasetID) -> (r: bool)
    ensures
        r == dataset_views(ids@).contains(id@),
{
    for i in 0..ids.len()
        invariant
            forall|j: int| 0 <= j < i ==> ids@[j]@ != id@,
    {
        if ids[i] == *id {
            assert(dataset_views(ids@)[i as int] == id@);
            return true;
        }
    }
    false
}

} // verus!
