use vstd::prelude::*;
use crate::db_access::{find, of_teacher, removed, updated, CourseStore};
use crate::error::{client_message, status_of, MyError};
use crate::models::{
    apply_patch, course_of, validated, Course, CreateCourse, CreateCourseRequest, UpdateCourse,
};

verus! {

/// What a response carries.
pub enum ResponseBody {
    Course(Course),
    Courses(Vec<Course>),
    Text(String),
}

/// A status code and the body sent with it.
pub struct Response {
    pub status: u16,
    pub body: ResponseBody,
}

/// The response of a failure: its status and the text the client may see.
pub open spec fn is_error_response(r: Response, e: MyError) -> bool {
    &&& r.status == status_of(e)
    &&& r.body matches ResponseBody::Text(t) && t@ == client_message(e)
}

/// The failure's status, with a body that discloses no store detail.
pub fn error_response(e: &MyError) -> (r: Response)
    ensures
        is_error_response(r, *e),
{
    Response { status: e.status_code(), body: ResponseBody::Text(e.error_response()) }
}

/// 200 with the course, or the failure's response.
pub fn course_response(outcome: Result<Course, MyError>) -> (r: Response)
    ensures
        match outcome {
            Ok(c) => r.status == 200 && r.body == ResponseBody::Course(c),
            Err(e) => is_error_response(r, e),
        },
{
    match outcome {
        Ok(c) => Response { status: 200, body: ResponseBody::Course(c) },
        Err(e) => error_response(&e),
    }
}

/// 200 with the list, or the failure's response.
pub fn courses_response(outcome: Result<Vec<Course>, MyError>) -> (r: Response)
    ensures
        match outcome {
            Ok(v) => r.status == 200 && r.body == ResponseBody::Courses(v),
            Err(e) => is_error_response(r, e),
        },
{
    match outcome {
        Ok(v) => Response { status: 200, body: ResponseBody::Courses(v) },
        Err(e) => error_response(&e),
    }
}

/// 200 with the confirmation, or the failure's response.
pub fn text_response(outcome: Result<String, MyError>) -> (r: Response)
    ensures
        match outcome {
            Ok(t) => r.status == 200 && r.body == ResponseBody::Text(t),
            Err(e) => is_error_response(r, e),
        },
{
    match outcome {
        Ok(t) => Response { status: 200, body: ResponseBody::Text(t) },
        Err(e) => error_response(&e),
    }
}

/// POST of a new course: 400 when the teacher or the name is missing,
/// otherwise the course is stored and returned with its identity and time.
pub fn post_new_course(store: &mut CourseStore, body: CreateCourseRequest, now: i64) -> (r: Response)
    requires
        old(store).wf(),
    ensures
        final(store).wf(),
        (body.teacher_id is None || body.name is None) ==> r.status == 400
            && final(store).rows() == old(store).rows(),
        (body.teacher_id is Some && body.name is Some && old(store).next_id() < i32::MAX) ==> {
            let c = course_of(validated(body), old(store).next_id() as i32, now);
            &&& r.status == 200
            &&& r.body == ResponseBody::Course(c)
            &&& final(store).rows() == old(store).rows().push(c)
        },
        (body.teacher_id is Some && body.name is Some && old(store).next_id() == i32::MAX) ==> r.status
            == 500 && final(store).rows() == old(store).rows(),
{
    match CreateCourse::try_from_request(body) {
        Ok(course) => course_response(store.create(course, now)),
        Err(e) => error_response(&e),
    }
}

/// GET of a teacher's courses: always 200, with a possibly empty list.
pub fn get_course_for_teacher(store: &CourseStore, teacher_id: i32) -> (r: Response)
    ensures
        r.status == 200,
        r.body matches ResponseBody::Courses(v) && v@ == of_teacher(store.rows(), teacher_id),
{
    courses_response(Ok(store.list_by_teacher(teacher_id)))
}

/// GET of one course: 200 with it, or 404.
pub fn get_course_detail(store: &CourseStore, teacher_id: i32, course_id: i32) -> (r: Response)
    ensures
        match find(store.rows(), teacher_id, course_id) {
            Some(c) => r.status == 200 && r.body == ResponseBody::Course(c),
            None => r.status == 404,
        },
{
    course_response(store.get_one(teacher_id, course_id))
}

/// DELETE of one course: 200 with a confirmation, or 404.
pub fn delete_course(store: &mut CourseStore, teacher_id: i32, course_id: i32) -> (r: Response)
    requires
        old(store).wf(),
    ensures
        final(store).wf(),
        final(store).rows() == removed(old(store).rows(), teacher_id, course_id),
        match find(old(store).rows(), teacher_id, course_id) {
            Some(_) => r.status == 200,
            None => r.status == 404,
        },
{
    text_response(store.delete(teacher_id, course_id))
}

/// PUT of a patch on one course: 200 with the course as patched, or 404.
pub fn update_coruse_detail(
    store: &mut CourseStore,
    patch: UpdateCourse,
    teacher_id: i32,
    course_id: i32,
) -> (r: Response)
    requires
        old(store).wf(),
    ensures
        final(store).wf(),
        final(store).rows() == updated(old(store).rows(), teacher_id, course_id, patch),
        match find(old(store).rows(), teacher_id, course_id) {
            Some(c) => r.status == 200 && r.body == ResponseBody::Course(apply_patch(c, patch)),
            None => r.status == 404,
        },
{
    course_response(store.update(teacher_id, course_id, patch))
}

/// Counts one visit of the health check and returns the count before it;
/// the count stops at its largest value.
pub fn record_visit(visit_count: &mut u64) -> (r: u64)
    ensures
        r == *old(visit_count),
        *final(visit_count) == if *old(visit_count) < u64::MAX {
            (*old(visit_count) + 1) as u64
        } else {
            *old(visit_count)
        },
{
    let seen = *visit_count;
    *visit_count = visit_count.saturating_add(1);
    seen
}

} // verus!
