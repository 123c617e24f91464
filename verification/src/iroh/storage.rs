//! Storage that keeps blocks in a store of blobs.

use vstd::prelude::*;
use vstd::string::*;

verus! {

/// Storage under a directory. `H` is the type of handles to the runtime that
/// the stores work on, `P` that of paths.
#[derive(Clone, Debug)]
pub struct IrohStorage<H, P> {
    pub rt: H,
    /// The directory, as an absolute path without links in it.
    pub path: P,
}

/// A store of blocks. `B` is the type of stores of blobs.
#[derive(Clone, Debug)]
pub struct IrohStore<B> {
    pub db: B,
    pub name: String,
}

/// A store of values under keys.
#[derive(Clone, Debug)]
pub struct RedbStore {
    pub name: String,
}

/// A store was asked for that the storage does not have.
#[derive(Debug)]
pub struct NoSuchStore {
    pub name: String,
}

impl NoSuchStore {
    /// What is wrong, in words.
    pub fn message(&self) -> (message: String)
        ensures
            message@ == "No such store named "@ + self.name@,
    {
        let message: String = "No such store named ".to_owned();
        message.concat(self.name.as_str())
    }
}

/// Whether a list of names holds `name`.
pub open spec fn is_listed(names: Seq<String>, name: Seq<char>) -> bool {
    exists|i: int| 0 <= i < names.len() && (#[trigger] names[i])@ == name
}

fn find_name(names: &Vec<String>, name: &String) -> (found: bool)
    ensures
        found == is_listed(names@, name@),
{
    let mut i: usize = 0;
    while i < names.len()
        invariant
            i <= names.len(),
            forall|k: int| 0 <= k < i ==> (#[trigger] names@[k])@ != name@,
        decreases names.len() - i,
    {
        if names[i] == *name {
            assert(names@[i as int]@ == name@);
            return true;
        }
        i = i + 1;
    }
    false
}

impl RedbStore {
    /// A store of values under keys, with the given name.
    pub fn new(name: &str) -> (store: Result<Self, NoSuchStore>)
        ensures
            store matches Ok(store) && store.name@ == name@,
    {
        Ok(RedbStore { name: name.to_owned() })
    }
}

impl<H, P> IrohStorage<H, P> {
    /// The store of values with the given name, if that is one of the
    /// `known` names.
    pub fn get_key_value_store(&self, known: &Vec<String>, name: &str) -> (store: Result<
        RedbStore,
        NoSuchStore,
    >)
        ensures
            match store {
                Ok(store) => is_listed(known@, name@) && store.name@ == name@,
                Err(error) => !is_listed(known@, name@) && error.name@ == name@,
            },
    {
        let wanted: String = name.to_owned();
        if !find_name(known, &wanted) {
            return Err(NoSuchStore { name: wanted });
        }
        RedbStore::new(name)
    }

    /// The opening of the store of blocks with the given name, if that is one
    /// of the `known` names.
    pub fn get_block_store<B, E>(&self, known: &Vec<String>, name: &str) -> (opening: Result<
        super::open::StoreOpening<B, E>,
        NoSuchStore,
    >)
        ensures
            match opening {
                Ok(opening) => {
                    &&& is_listed(known@, name@)
                    &&& opening.name@ == name@
                    &&& opening.phase == (super::open::StorePhase::<B, E>::CreateDirectory {
                        directory: super::open::StoreDirectory::Complete,
                    })
                },
                Err(error) => !is_listed(known@, name@) && error.name@ == name@,
            },
    {
        let wanted: String = name.to_owned();
        if !find_name(known, &wanted) {
            return Err(NoSuchStore { name: wanted });
        }
        Ok(IrohStore::new(name))
    }
}

/// A name is listed exactly if it is, letter for letter, one of the names.
pub proof fn law_listed_names_are_those_of_the_list(names: Seq<String>, name: Seq<char>)
    ensures
        is_listed(names, name) <==> names.map_values(|listed: String| listed@).contains(name),
{
    let texts = names.map_values(|listed: String| listed@);
    if is_listed(names, name) {
        let i = choose|i: int| 0 <= i < names.len() && (#[trigger] names[i])@ == name;
        assert(texts[i] == name);
    }
    if texts.contains(name) {
        let i = choose|i: int| 0 <= i < texts.len() && texts[i] == name;
        assert(names[i]@ == name);
    }
}

} // verus!
