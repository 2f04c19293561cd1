use vstd::prelude::*;
use vstd::string::*;

verus! {

/// A stored post, as the datastore hands it back.
pub struct Post {
    pub id: i32,
    pub title: String,
    pub text: String,
}

/// The transport view of a post.
pub struct PostVo {
    pub id: i32,
    pub title: String,
    pub text: String,
}

/// `v` carries exactly the fields of `p`.
pub open spec fn is_view_of(v: PostVo, p: Post) -> bool {
    &&& v.id == p.id
    &&& v.title@ == p.title@
    &&& v.text@ == p.text@
}

/// `vs` holds one view per row of `rows`, in the same order.
pub open spec fn are_views_of(vs: Seq<PostVo>, rows: Seq<Post>) -> bool {
    &&& vs.len() == rows.len()
    &&& forall|i: int| 0 <= i < rows.len() ==> #[trigger] is_view_of(vs[i], rows[i])
}

/// The text of the not-found failure.
pub open spec fn not_found_text() -> Seq<char> {
    "post not found"@
}

impl Default for PostVo {
    fn default() -> (r: Self)
        ensures
            r.id == 0,
            r.title@ == Seq::<char>::empty(),
            r.text@ == Seq::<char>::empty(),
    {
        PostVo { id: 0, title: String::new(), text: String::new() }
    }
}

impl From<Post> for PostVo {
    fn from(p: Post) -> (r: PostVo) {
        PostVo { id: p.id, title: p.title, text: p.text }
    }
}

impl vstd::std_specs::convert::FromSpecImpl<Post> for PostVo {
    open spec fn obeys_from_spec() -> bool {
        true
    }

    open spec fn from_spec(p: Post) -> PostVo {
        PostVo { id: p.id, title: p.title, text: p.text }
    }
}

impl PostVo {
    /// The view of a row, by field-wise copy.
    pub fn from_post(p: &Post) -> (r: PostVo)
        ensures
            is_view_of(r, *p),
    {
        PostVo { id: p.id, title: p.title.clone(), text: p.text.clone() }
    }
}

/// Why a read of posts did not produce a view.
pub enum ServiceError {
    /// No row has the requested id.
    NotFound,
    /// The datastore query failed, with its description.
    Query(String),
}

impl ServiceError {
    /// The description carried into a failure envelope.
    pub open spec fn text(&self) -> Seq<char> {
        match self {
            ServiceError::NotFound => not_found_text(),
            ServiceError::Query(m) => m@,
        }
    }

    pub fn message(&self) -> (r: String)
        ensures
            r@ == self.text(),
    {
        match self {
            ServiceError::NotFound => {
                proof {
                    reveal_strlit("post not found");
                }
                String::from_str("post not found")
            },
            ServiceError::Query(m) => m.clone(),
        }
    }
}

/// `r` is what a lookup that came back as `found` turns into.
pub open spec fn lookup_matches(found: Result<Option<Post>, String>, r: Result<PostVo, ServiceError>) -> bool {
    match found {
        Ok(Some(p)) => r matches Ok(v) && is_view_of(v, p),
        Ok(None) => r matches Err(ServiceError::NotFound),
        Err(m) => r matches Err(ServiceError::Query(q)) && q@ == m@,
    }
}

/// `r` is what a listing that came back as `rows` turns into.
pub open spec fn listing_matches(rows: Result<Vec<Post>, String>, r: Result<Vec<PostVo>, ServiceError>) -> bool {
    match rows {
        Ok(rs) => r matches Ok(vs) && are_views_of(vs@, rs@),
        Err(m) => r matches Err(ServiceError::Query(q)) && q@ == m@,
    }
}

/// No two rows share an id.
pub open spec fn ids_unique(rows: Seq<Post>) -> bool {
    forall|i: int, j: int| 0 <= i < rows.len() && 0 <= j < rows.len() && i != j ==> rows[i].id != rows[j].id
}

/// Some row has this id.
pub open spec fn has_id(rows: Seq<Post>, id: i32) -> bool {
    exists|i: int| 0 <= i < rows.len() && #[trigger] rows[i].id == id
}

/// The row that a lookup by `id` finds in a table holding `rows`.
pub open spec fn row_with_id(rows: Seq<Post>, id: i32) -> Option<Post> {
    if has_id(rows, id) {
        Some(rows[choose|i: int| 0 <= i < rows.len() && #[trigger] rows[i].id == id])
    } else {
        None
    }
}

/// Turns the outcome of a lookup by id into the post's view: a missing row is
/// `NotFound`, a failed query keeps its description.
pub fn post_from_lookup(found: Result<Option<Post>, String>) -> (r: Result<PostVo, ServiceError>)
    ensures
        lookup_matches(found, r),
{
    match found {
        Ok(Some(p)) => Ok(PostVo::from_post(&p)),
        Ok(None) => Err(ServiceError::NotFound),
        Err(m) => Err(ServiceError::Query(m)),
    }
}

/// Maps every stored row to its view, keeping the store's order.
pub fn views_of(rows: &Vec<Post>) -> (r: Vec<PostVo>)
    ensures
        are_views_of(r@, rows@),
{
    let mut out: Vec<PostVo> = Vec::new();
    let mut i: usize = 0;
    while i < rows.len()
        invariant
            i <= rows@.len(),
            are_views_of(out@, rows@.subrange(0, i as int)),
        decreases rows@.len() - i,
    {
        let v = PostVo::from_post(&rows[i]);
        out.push(v);
        i = i + 1;
        proof {
            assert(is_view_of(out@[i - 1], rows@.subrange(0, i as int)[i - 1]));
        }
    }
    proof {
        assert(rows@.subrange(0, rows@.len() as int) =~= rows@);
    }
    out
}

/// Turns the outcome of a listing into views: an empty table is an empty
/// listing, a failed query keeps its description.
pub fn posts_from_rows(rows: Result<Vec<Post>, String>) -> (r: Result<Vec<PostVo>, ServiceError>)
    ensures
        listing_matches(rows, r),
{
    match rows {
        Ok(rs) => Ok(views_of(&rs)),
        Err(m) => Err(ServiceError::Query(m)),
    }
}

} // verus!
