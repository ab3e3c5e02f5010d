use vstd::prelude::*;
use crate::error::MyError;

verus! {

/// A persisted course. `id` and `posted_time` are assigned by the store;
/// `posted_time` counts seconds since the Unix epoch.
pub struct Course {
    pub id: i32,
    pub teacher_id: i32,
    pub name: String,
    pub description: Option<String>,
    pub format: Option<String>,
    pub structure: Option<String>,
    pub duration: Option<String>,
    pub price: Option<i32>,
    pub language: Option<String>,
    pub level: Option<String>,
    pub posted_time: i64,
}

/// The input of a creation: every user-supplied field of a course.
pub struct CreateCourse {
    pub teacher_id: i32,
    pub name: String,
    pub description: Option<String>,
    pub format: Option<String>,
    pub structure: Option<String>,
    pub duration: Option<String>,
    pub price: Option<i32>,
    pub language: Option<String>,
    pub level: Option<String>,
}

/// A creation request as it arrives, before the mandatory fields are checked.
pub struct CreateCourseRequest {
    pub teacher_id: Option<i32>,
    pub name: Option<String>,
    pub description: Option<String>,
    pub format: Option<String>,
    pub structure: Option<String>,
    pub duration: Option<String>,
    pub price: Option<i32>,
    pub language: Option<String>,
    pub level: Option<String>,
}

/// A patch: an absent field leaves the stored value as it is.
pub struct UpdateCourse {
    pub name: Option<String>,
    pub description: Option<String>,
    pub format: Option<String>,
    pub structure: Option<String>,
    pub duration: Option<String>,
    pub price: Option<i32>,
    pub language: Option<String>,
    pub level: Option<String>,
}

/// The value a patch field leaves behind.
pub open spec fn patched<T>(current: T, patch: Option<T>) -> T {
    match patch {
        Some(v) => v,
        None => current,
    }
}

/// The value an optional patch field leaves behind.
pub open spec fn patched_opt<T>(current: Option<T>, patch: Option<T>) -> Option<T> {
    match patch {
        Some(v) => Some(v),
        None => current,
    }
}

/// `c` after `p` is applied: the supplied fields replace the stored ones,
/// identity, owner and timestamp stay.
pub open spec fn apply_patch(c: Course, p: UpdateCourse) -> Course {
    Course {
        id: c.id,
        teacher_id: c.teacher_id,
        name: patched(c.name, p.name),
        description: patched_opt(c.description, p.description),
        format: patched_opt(c.format, p.format),
        structure: patched_opt(c.structure, p.structure),
        duration: patched_opt(c.duration, p.duration),
        price: patched_opt(c.price, p.price),
        language: patched_opt(c.language, p.language),
        level: patched_opt(c.level, p.level),
        posted_time: c.posted_time,
    }
}

/// The user-supplied fields of `c` are those of `n`.
pub open spec fn carries(c: Course, n: CreateCourse) -> bool {
    &&& c.teacher_id == n.teacher_id
    &&& c.name == n.name
    &&& c.description == n.description
    &&& c.format == n.format
    &&& c.structure == n.structure
    &&& c.duration == n.duration
    &&& c.price == n.price
    &&& c.language == n.language
    &&& c.level == n.level
}

/// The record a creation stores under identity `id` at time `now`.
pub open spec fn course_of(n: CreateCourse, id: i32, now: i64) -> Course {
    Course {
        id,
        teacher_id: n.teacher_id,
        name: n.name,
        description: n.description,
        format: n.format,
        structure: n.structure,
        duration: n.duration,
        price: n.price,
        language: n.language,
        level: n.level,
        posted_time: now,
    }
}

fn copy_text(s: &Option<String>) -> (r: Option<String>)
    ensures
        r == *s,
{
    match s {
        Some(t) => Some(t.clone()),
        None => None,
    }
}

impl Course {
    /// A field-for-field copy.
    pub fn duplicate(&self) -> (r: Course)
        ensures
            r == *self,
    {
        Course {
            id: self.id,
            teacher_id: self.teacher_id,
            name: self.name.clone(),
            description: copy_text(&self.description),
            format: copy_text(&self.format),
            structure: copy_text(&self.structure),
            duration: copy_text(&self.duration),
            price: self.price,
            language: copy_text(&self.language),
            level: copy_text(&self.level),
            posted_time: self.posted_time,
        }
    }

    /// The record stored for `n` under identity `id`, posted at `now`.
    pub fn from_create(n: CreateCourse, id: i32, now: i64) -> (r: Course)
        ensures
            r == course_of(n, id, now),
    {
        Course {
            id,
            teacher_id: n.teacher_id,
            name: n.name,
            description: n.description,
            format: n.format,
            structure: n.structure,
            duration: n.duration,
            price: n.price,
            language: n.language,
            level: n.level,
            posted_time: now,
        }
    }

    /// Applies a patch: each field present in `p` replaces the stored one,
    /// every other field is kept.
    pub fn apply_update(self, p: UpdateCourse) -> (r: Course)
        ensures
            r == apply_patch(self, p),
    {
        Course {
            id: self.id,
            teacher_id: self.teacher_id,
            name: match p.name {
                Some(v) => v,
                None => self.name,
            },
            description: match p.description {
                Some(v) => Some(v),
                None => self.description,
            },
            format: match p.format {
                Some(v) => Some(v),
                None => self.format,
            },
            structure: match p.structure {
                Some(v) => Some(v),
                None => self.structure,
            },
            duration: match p.duration {
                Some(v) => Some(v),
                None => self.duration,
            },
            price: match p.price {
                Some(v) => Some(v),
                None => self.price,
            },
            language: match p.language {
                Some(v) => Some(v),
                None => self.language,
            },
            level: match p.level {
                Some(v) => Some(v),
                None => self.level,
            },
            posted_time: self.posted_time,
        }
    }
}

} // verus!

verus! {

/// The creation input that `req` describes, when both mandatory fields are there.
pub open spec fn validated(req: CreateCourseRequest) -> CreateCourse
    recommends
        req.teacher_id is Some,
        req.name is Some,
{
    CreateCourse {
        teacher_id: req.teacher_id->Some_0,
        name: req.name->Some_0,
        description: req.description,
        format: req.format,
        structure: req.structure,
        duration: req.duration,
        price: req.price,
        language: req.language,
        level: req.level,
    }
}

impl CreateCourse {
    /// Checks the mandatory fields: fails with `InvalidInput` exactly when
    /// the teacher or the name is missing, and otherwise keeps every field.
    pub fn try_from_request(req: CreateCourseRequest) -> (r: Result<CreateCourse, MyError>)
        ensures
            (req.teacher_id is Some && req.name is Some) <==> r is Ok,
            r is Ok ==> r->Ok_0 == validated(req),
            r is Err ==> r->Err_0.is_invalid_input(),
    {
        let teacher_id = match req.teacher_id {
            Some(t) => t,
            None => {
                return Err(MyError::InvalidInput("teacher_id is required".to_owned()));
            },
        };
        let name = match req.name {
            Some(n) => n,
            None => {
                return Err(MyError::InvalidInput("name is required".to_owned()));
            },
        };
        Ok(
            CreateCourse {
                teacher_id,
                name,
                description: req.description,
                format: req.format,
                structure: req.structure,
                duration: req.duration,
                price: req.price,
                language: req.language,
                level: req.level,
            },
        )
    }
}

} // verus!

verus! {

/// A patch leaves every field it omits as it was, and never touches the
/// identity, the owner or the timestamp.
pub proof fn lemma_update_keeps_omitted(c: Course, p: UpdateCourse)
    ensures
        apply_patch(c, p).id == c.id,
        apply_patch(c, p).teacher_id == c.teacher_id,
        apply_patch(c, p).posted_time == c.posted_time,
        p.name is None ==> apply_patch(c, p).name == c.name,
        p.description is None ==> apply_patch(c, p).description == c.description,
        p.format is None ==> apply_patch(c, p).format == c.format,
        p.structure is None ==> apply_patch(c, p).structure == c.structure,
        p.duration is None ==> apply_patch(c, p).duration == c.duration,
        p.price is None ==> apply_patch(c, p).price == c.price,
        p.language is None ==> apply_patch(c, p).language == c.language,
        p.level is None ==> apply_patch(c, p).level == c.level,
{
}

} // verus!
