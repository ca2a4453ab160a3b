use vstd::prelude::*;

verus! {

/// A row of the `post_tag` join table, linking a post to a tag.
#[derive(Clone, Copy, Debug, PartialEq, Eq, Structural)]
pub struct Model {
    pub post_id: i32,
    pub tag_id: i32,
}

} // verus!
