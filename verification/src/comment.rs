use vstd::prelude::*;

verus! {

/// A row of the `comment` table.  `user_id` references the author,
/// `post_id` the post being commented on.
#[derive(Debug, PartialEq, Eq)]
pub struct Model {
    pub id: i32,
    pub user_id: i32,
    pub post_id: i32,
    pub content: String,
}

impl Clone for Model {
    fn clone(&self) -> (res: Self)
        ensures
            res == *self,
    {
        Model {
            id: self.id,
            user_id: self.user_id,
            post_id: self.post_id,
            content: self.content.clone(),
        }
    }
}

} // verus!
