use vstd::prelude::*;
use crate::error::MyError;
use crate::models::{apply_patch, course_of, Course, CreateCourse, UpdateCourse};

verus! {

/// `c` is the course scoped by the pair `(teacher_id, course_id)`.
pub open spec fn has_key(c: Course, teacher_id: i32, course_id: i32) -> bool {
    c.teacher_id == teacher_id && c.id == course_id
}

/// The position of the last row scoped by `(teacher_id, course_id)`.
pub open spec fn find_index(s: Seq<Course>, teacher_id: i32, course_id: i32) -> Option<int>
    decreases s.len(),
{
    if s.len() == 0 {
        None
    } else if has_key(s.last(), teacher_id, course_id) {
        Some(s.len() - 1)
    } else {
        find_index(s.drop_last(), teacher_id, course_id)
    }
}

/// The row scoped by `(teacher_id, course_id)`, if any.
pub open spec fn find(s: Seq<Course>, teacher_id: i32, course_id: i32) -> Option<Course> {
    match find_index(s, teacher_id, course_id) {
        Some(i) => Some(s[i]),
        None => None,
    }
}

/// The rows of one teacher, in table order.
pub open spec fn of_teacher(s: Seq<Course>, teacher_id: i32) -> Seq<Course>
    decreases s.len(),
{
    if s.len() == 0 {
        Seq::empty()
    } else if s.last().teacher_id == teacher_id {
        of_teacher(s.drop_last(), teacher_id).push(s.last())
    } else {
        of_teacher(s.drop_last(), teacher_id)
    }
}

/// The table once the row scoped by the pair is deleted.
pub open spec fn removed(s: Seq<Course>, teacher_id: i32, course_id: i32) -> Seq<Course> {
    match find_index(s, teacher_id, course_id) {
        Some(i) => s.remove(i),
        None => s,
    }
}

/// The table once the row scoped by the pair is patched.
pub open spec fn updated(s: Seq<Course>, teacher_id: i32, course_id: i32, p: UpdateCourse) -> Seq<Course> {
    match find_index(s, teacher_id, course_id) {
        Some(i) => s.update(i, apply_patch(s[i], p)),
        None => s,
    }
}

/// No two rows share an identity.
pub open spec fn ids_unique(s: Seq<Course>) -> bool {
    forall|i: int, j: int| 0 <= i < s.len() && 0 <= j < s.len() && i != j ==> s[i].id != s[j].id
}

/// A position found is a row that has the key; none is found only when no row has it.
pub proof fn lemma_find_index(s: Seq<Course>, teacher_id: i32, course_id: i32)
    ensures
        match find_index(s, teacher_id, course_id) {
            Some(i) => 0 <= i < s.len() && has_key(s[i], teacher_id, course_id),
            None => forall|j: int| 0 <= j < s.len() ==> !has_key(#[trigger] s[j], teacher_id, course_id),
        },
    decreases s.len(),
{
    if s.len() > 0 && !has_key(s.last(), teacher_id, course_id) {
        lemma_find_index(s.drop_last(), teacher_id, course_id);
        assert forall|j: int| 0 <= j < s.len() - 1 implies s.drop_last()[j] == s[j] by {}
    }
}

/// Where ids are unique, the row found is the only one with the key.
pub proof fn lemma_find_index_unique(s: Seq<Course>, teacher_id: i32, course_id: i32)
    requires
        ids_unique(s),
    ensures
        find_index(s, teacher_id, course_id) matches Some(i) ==> forall|j: int|
            0 <= j < s.len() && j != i ==> !has_key(#[trigger] s[j], teacher_id, course_id),
{
    lemma_find_index(s, teacher_id, course_id);
}

} // verus!

verus! {

/// The failure a lookup by an unknown pair gives.
pub fn not_found() -> (r: MyError)
    ensures
        r.is_not_found(),
{
    MyError::NotFound("Course not found".to_owned())
}

/// The one row of a query scoped by a key, or `NotFound` when the query
/// matched nothing.
pub fn one_row(rows: Vec<Course>) -> (r: Result<Course, MyError>)
    ensures
        rows@.len() == 0 <==> r is Err,
        r is Ok ==> r->Ok_0 == rows@[0],
        r is Err ==> r->Err_0.is_not_found(),
{
    let mut rows = rows;
    if rows.len() == 0 {
        Err(not_found())
    } else {
        Ok(rows.swap_remove(0))
    }
}

/// The confirmation of a deletion that affected `affected` rows, or
/// `NotFound` when it affected none.
pub fn delete_outcome(affected: u64) -> (r: Result<String, MyError>)
    ensures
        affected == 0 <==> r is Err,
        r is Err ==> r->Err_0.is_not_found(),
        r is Ok ==> r->Ok_0@ == "Course deleted"@,
{
    if affected == 0 {
        Err(not_found())
    } else {
        Ok("Course deleted".to_owned())
    }
}

/// A table of courses kept in memory, with identities handed out in
/// increasing order.
pub struct CourseStore {
    rows: Vec<Course>,
    next_id: i32,
}

impl CourseStore {
    /// The rows, in the order they were created.
    pub closed spec fn rows(&self) -> Seq<Course> {
        self.rows@
    }

    /// The identity the next creation is given.
    pub closed spec fn next_id(&self) -> int {
        self.next_id as int
    }

    /// Identities are unique, positive, and below the next one to be given.
    pub closed spec fn wf(&self) -> bool {
        &&& 1 <= self.next_id
        &&& ids_unique(self.rows@)
        &&& forall|i: int|
            0 <= i < self.rows@.len() ==> 1 <= #[trigger] self.rows@[i].id < self.next_id
    }

    /// A well-formed table has unique identities, all below the next one,
    /// which is what the laws on deletion and update ask of its rows.
    pub proof fn lemma_wf_ids_unique(&self)
        requires
            self.wf(),
        ensures
            ids_unique(self.rows()),
            forall|i: int| 0 <= i < self.rows().len() ==> #[trigger] self.rows()[i].id < self.next_id(),
    {
    }

    /// An empty table whose first course gets identity 1.
    pub fn new() -> (r: CourseStore)
        ensures
            r.wf(),
            r.rows() == Seq::<Course>::empty(),
            r.next_id() == 1,
    {
        CourseStore { rows: Vec::new(), next_id: 1 }
    }

    fn position(&self, teacher_id: i32, course_id: i32) -> (r: Option<usize>)
        ensures
            match r {
                Some(k) => find_index(self.rows@, teacher_id, course_id) == Some(k as int),
                None => find_index(self.rows@, teacher_id, course_id) is None,
            },
    {
        let mut found: Option<usize> = None;
        let mut i: usize = 0;
        while i < self.rows.len()
            invariant
                0 <= i <= self.rows@.len(),
                match found {
                    Some(k) => find_index(self.rows@.subrange(0, i as int), teacher_id, course_id)
                        == Some(k as int),
                    None => find_index(self.rows@.subrange(0, i as int), teacher_id, course_id) is None,
                },
            decreases self.rows@.len() - i,
        {
            let ghost prefix = self.rows@.subrange(0, i as int + 1);
            assert(prefix.drop_last() =~= self.rows@.subrange(0, i as int));
            if self.rows[i].teacher_id == teacher_id && self.rows[i].id == course_id {
                found = Some(i);
            }
            i = i + 1;
        }
        assert(self.rows@.subrange(0, self.rows@.len() as int) =~= self.rows@);
        found
    }

    /// Stores a new course under the next identity, posted at `now`. Fails
    /// with `DBError`, the table unchanged, once identities are exhausted.
    pub fn create(&mut self, course: CreateCourse, now: i64) -> (r: Result<Course, MyError>)
        requires
            old(self).wf(),
        ensures
            final(self).wf(),
            r is Ok <==> old(self).next_id() < i32::MAX,
            r is Ok ==> r->Ok_0 == course_of(course, old(self).next_id() as i32, now)
                && final(self).rows() == old(self).rows().push(r->Ok_0),
            r is Err ==> r->Err_0.is_db_error() && final(self).rows() == old(self).rows(),
    {
        if self.next_id == i32::MAX {
            return Err(MyError::DBError("course identities exhausted".to_owned()));
        }
        let c = Course::from_create(course, self.next_id, now);
        let out = c.duplicate();
        self.rows.push(c);
        self.next_id = self.next_id + 1;
        Ok(out)
    }

    /// Every course of the teacher, in creation order; empty when there is none.
    pub fn list_by_teacher(&self, teacher_id: i32) -> (r: Vec<Course>)
        ensures
            r@ == of_teacher(self.rows(), teacher_id),
    {
        let mut out: Vec<Course> = Vec::new();
        let mut i: usize = 0;
        while i < self.rows.len()
            invariant
                0 <= i <= self.rows@.len(),
                out@ == of_teacher(self.rows@.subrange(0, i as int), teacher_id),
            decreases self.rows@.len() - i,
        {
            let ghost prefix = self.rows@.subrange(0, i as int + 1);
            assert(prefix.drop_last() =~= self.rows@.subrange(0, i as int));
            if self.rows[i].teacher_id == teacher_id {
                out.push(self.rows[i].duplicate());
            }
            i = i + 1;
        }
        assert(self.rows@.subrange(0, self.rows@.len() as int) =~= self.rows@);
        out
    }

    /// The course scoped by the pair, or `NotFound` when there is none.
    pub fn get_one(&self, teacher_id: i32, course_id: i32) -> (r: Result<Course, MyError>)
        ensures
            match find(self.rows(), teacher_id, course_id) {
                Some(c) => r == Ok::<Course, MyError>(c),
                None => r is Err && r->Err_0.is_not_found(),
            },
    {
        match self.position(teacher_id, course_id) {
            Some(i) => {
                proof { lemma_find_index(self.rows@, teacher_id, course_id); }
                let c = self.rows[i].duplicate();
                Ok(c)
            },
            None => Err(not_found()),
        }
    }

    /// Deletes the course scoped by the pair; `NotFound`, the table
    /// unchanged, when there is none.
    pub fn delete(&mut self, teacher_id: i32, course_id: i32) -> (r: Result<String, MyError>)
        requires
            old(self).wf(),
        ensures
            final(self).wf(),
            final(self).rows() == removed(old(self).rows(), teacher_id, course_id),
            find(old(self).rows(), teacher_id, course_id) is Some <==> r is Ok,
            r is Ok ==> r->Ok_0@ == "Course deleted"@,
            r is Err ==> r->Err_0.is_not_found(),
    {
        proof { lemma_find_index(self.rows@, teacher_id, course_id); }
        match self.position(teacher_id, course_id) {
            Some(i) => {
                let ghost before = self.rows@;
                self.rows.remove(i);
                assert forall|a: int| 0 <= a < self.rows@.len() implies
                    #[trigger] self.rows@[a] == before[if a < i { a } else { a + 1 }] by {}
                delete_outcome(1)
            },
            None => delete_outcome(0),
        }
    }

    /// Patches the course scoped by the pair and returns it as stored;
    /// `NotFound`, the table unchanged, when there is none.
    pub fn update(&mut self, teacher_id: i32, course_id: i32, patch: UpdateCourse) -> (r: Result<Course, MyError>)
        requires
            old(self).wf(),
        ensures
            final(self).wf(),
            final(self).rows() == updated(old(self).rows(), teacher_id, course_id, patch),
            match find(old(self).rows(), teacher_id, course_id) {
                Some(c) => r == Ok::<Course, MyError>(apply_patch(c, patch)),
                None => r is Err && r->Err_0.is_not_found(),
            },
    {
        proof { lemma_find_index(self.rows@, teacher_id, course_id); }
        match self.position(teacher_id, course_id) {
            Some(i) => {
                let current = self.rows[i].duplicate();
                let next = current.apply_update(patch);
                let out = next.duplicate();
                self.rows.set(i, next);
                Ok(out)
            },
            None => Err(not_found()),
        }
    }
}

} // verus!

verus! {

/// A course just created is found again under its teacher and its new
/// identity, with every user-supplied field as given.
pub proof fn lemma_create_then_get(s: Seq<Course>, course: CreateCourse, id: i32, now: i64)
    ensures
        find(s.push(course_of(course, id, now)), course.teacher_id, id) == Some(
            course_of(course, id, now),
        ),
        crate::models::carries(course_of(course, id, now), course),
{
    assert(s.push(course_of(course, id, now)).last() == course_of(course, id, now));
}

/// Looking up a pair that no row has always gives nothing, so `get_one`
/// answers it with `NotFound`.
pub proof fn lemma_absent_key_not_found(s: Seq<Course>, teacher_id: i32, course_id: i32)
    requires
        forall|j: int| 0 <= j < s.len() ==> !has_key(#[trigger] s[j], teacher_id, course_id),
    ensures
        find(s, teacher_id, course_id) is None,
{
    lemma_find_index(s, teacher_id, course_id);
}

/// Deleting twice has the effect of deleting once: after the first
/// deletion the pair is gone, the second finds nothing and changes nothing,
/// and identities stay unique.
pub proof fn lemma_delete_twice(s: Seq<Course>, teacher_id: i32, course_id: i32)
    requires
        ids_unique(s),
    ensures
        find(removed(s, teacher_id, course_id), teacher_id, course_id) is None,
        removed(removed(s, teacher_id, course_id), teacher_id, course_id) == removed(
            s,
            teacher_id,
            course_id,
        ),
        ids_unique(removed(s, teacher_id, course_id)),
{
    lemma_find_index(s, teacher_id, course_id);
    lemma_find_index_unique(s, teacher_id, course_id);
    let r = removed(s, teacher_id, course_id);
    if let Some(i) = find_index(s, teacher_id, course_id) {
        assert(r == s.remove(i));
        assert forall|j: int| 0 <= j < r.len() implies !has_key(#[trigger] r[j], teacher_id, course_id) by {
            if j < i {
                assert(r[j] == s[j]);
            } else {
                assert(r[j] == s[j + 1]);
            }
        }
        assert forall|a: int, b: int| 0 <= a < r.len() && 0 <= b < r.len() && a != b implies r[a].id != r[b].id by {
            let sa = if a < i { a } else { a + 1 };
            let sb = if b < i { b } else { b + 1 };
            assert(r[a] == s[sa] && r[b] == s[sb]);
        }
    }
    lemma_find_index(r, teacher_id, course_id);
}

/// A teacher with no course has an empty list.
pub proof fn lemma_no_courses_empty_list(s: Seq<Course>, teacher_id: i32)
    requires
        forall|j: int| 0 <= j < s.len() ==> (#[trigger] s[j]).teacher_id != teacher_id,
    ensures
        of_teacher(s, teacher_id) == Seq::<Course>::empty(),
    decreases s.len(),
{
    if s.len() > 0 {
        assert forall|j: int| 0 <= j < s.drop_last().len() implies (#[trigger] s.drop_last()[j]).teacher_id
            != teacher_id by {
            assert(s.drop_last()[j] == s[j]);
        }
        lemma_no_courses_empty_list(s.drop_last(), teacher_id);
        assert(s.last() == s[s.len() - 1]);
    }
}

/// An update changes only the row scoped by the pair: the table keeps its
/// length and every other row.
pub proof fn lemma_update_touches_one_row(
    s: Seq<Course>,
    teacher_id: i32,
    course_id: i32,
    patch: UpdateCourse,
)
    requires
        ids_unique(s),
    ensures
        updated(s, teacher_id, course_id, patch).len() == s.len(),
        forall|j: int|
            0 <= j < s.len() && !has_key(#[trigger] s[j], teacher_id, course_id) ==> updated(
                s,
                teacher_id,
                course_id,
                patch,
            )[j] == s[j],
{
    lemma_find_index(s, teacher_id, course_id);
}

} // verus!
