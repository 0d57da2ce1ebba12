use vstd::prelude::*;

verus! {

/// A directory entry: a display name and an email, with no password and
/// no uniqueness requirement. This record shape is separate from the
/// credential store's `AuthUser` and the two do not interoperate.
pub struct DirectoryUser {
    pub name: String,
    pub email: String,
}

/// The mathematical image of one directory entry.
pub ghost struct DirectoryUserModel {
    pub name: Seq<char>,
    pub email: Seq<char>,
}

impl View for DirectoryUser {
    type V = DirectoryUserModel;

    open spec fn view(&self) -> DirectoryUserModel {
        DirectoryUserModel { name: self.name@, email: self.email@ }
    }
}

/// The user directory: a plain list of entries in insertion order, with
/// no uniqueness check on add.
pub struct DirectoryStore {
    entries: Vec<DirectoryUser>,
}

impl View for DirectoryStore {
    type V = Seq<DirectoryUserModel>;

    closed spec fn view(&self) -> Seq<DirectoryUserModel> {
        self.entries@.map_values(|u: DirectoryUser| u@)
    }
}

impl DirectoryStore {
    pub fn new() -> (r: DirectoryStore)
        ensures
            r@ == Seq::<DirectoryUserModel>::empty(),
    {
        let r = DirectoryStore { entries: Vec::new() };
        proof {
            assert(r@ =~= Seq::<DirectoryUserModel>::empty());
        }
        r
    }

    /// Appends an entry; duplicates are allowed.
    pub fn add(&mut self, name: String, email: String)
        ensures
            final(self)@ == old(self)@.push(
                DirectoryUserModel { name: name@, email: email@ },
            ),
    {
        let ghost pre = self@;
        let ghost m = DirectoryUserModel { name: name@, email: email@ };
        self.entries.push(DirectoryUser { name, email });
        proof {
            assert(self@ =~= pre.push(m));
        }
    }

    /// All entries, in insertion order.
    pub fn list_all(&self) -> (r: &Vec<DirectoryUser>)
        ensures
            r@.map_values(|u: DirectoryUser| u@) == self@,
    {
        &self.entries
    }
}

} // verus!
