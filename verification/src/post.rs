use vstd::prelude::*;

verus! {

/// A row of the `post` table.  `user_id` references the owning user.
#[derive(Debug, PartialEq, Eq)]
pub struct Model {
    pub id: i32,
    pub user_id: i32,
    pub title: String,
    pub body: String,
}

impl Clone for Model {
    fn clone(&self) -> (res: Self)
        ensures
            res == *self,
    {
        Model {
            id: self.id,
            user_id: self.user_id,
            title: self.title.clone(),
            body: self.body.clone(),
        }
    }
}

} // verus!
