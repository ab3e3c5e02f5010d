use webservice::db_access::{delete_outcome, one_row};
use webservice::error::MyError;
use webservice::routers::{course_routes, general_routers, route, Endpoint, Method};

fn detail(m: Method, path: &str) -> Option<(i32, i32)> {
    match route(&m, path) {
        Some(Endpoint::GetCourseDetail(t, c))
        | Some(Endpoint::DeleteCourse(t, c))
        | Some(Endpoint::UpdateCourseDetail(t, c)) => Some((t, c)),
        _ => None,
    }
}

#[test]
fn health_route() {
    assert!(matches!(general_routers(&Method::Get, "/health"), Some(Endpoint::Health)));
    assert!(general_routers(&Method::Post, "/health").is_none());
    assert!(general_routers(&Method::Get, "/healthz").is_none());
    assert!(matches!(route(&Method::Get, "/health"), Some(Endpoint::Health)));
}

#[test]
fn post_route() {
    assert!(matches!(course_routes(&Method::Post, "/courses/"), Some(Endpoint::PostNewCourse)));
    assert!(course_routes(&Method::Get, "/courses/").is_none());
    assert!(course_routes(&Method::Post, "/courses").is_none());
}

#[test]
fn teacher_route() {
    assert!(matches!(
        course_routes(&Method::Get, "/courses/12"),
        Some(Endpoint::GetCourseForTeacher(12))
    ));
    assert!(course_routes(&Method::Delete, "/courses/12").is_none());
    assert!(course_routes(&Method::Get, "/courses/abc").is_none());
}

#[test]
fn detail_routes_bind_each_method() {
    assert!(matches!(route(&Method::Get, "/courses/1/9999"), Some(Endpoint::GetCourseDetail(1, 9999))));
    assert!(matches!(route(&Method::Delete, "/courses/1/2"), Some(Endpoint::DeleteCourse(1, 2))));
    assert!(matches!(route(&Method::Put, "/courses/1/2"), Some(Endpoint::UpdateCourseDetail(1, 2))));
    assert!(route(&Method::Post, "/courses/1/2").is_none());
    assert!(route(&Method::Other, "/courses/1/2").is_none());
}

#[test]
fn segment_numbers() {
    assert_eq!(detail(Method::Get, "/courses/-3/+4"), Some((-3, 4)));
    assert_eq!(detail(Method::Get, "/courses/2147483647/-2147483648"), Some((i32::MAX, i32::MIN)));
    assert_eq!(detail(Method::Get, "/courses/2147483648/1"), None);
    assert_eq!(detail(Method::Get, "/courses/1/-2147483649"), None);
    assert_eq!(detail(Method::Get, "/courses/99999999999999999999/1"), None);
    assert_eq!(detail(Method::Get, "/courses/1/"), None);
    assert_eq!(detail(Method::Get, "/courses//1"), None);
    assert_eq!(detail(Method::Get, "/courses/1/2/3"), None);
    assert_eq!(detail(Method::Get, "/courses/-/2"), None);
    assert_eq!(detail(Method::Get, "/courses/1x/2"), None);
}

#[test]
fn unknown_paths() {
    assert!(route(&Method::Get, "/").is_none());
    assert!(route(&Method::Get, "").is_none());
    assert!(route(&Method::Get, "/course/1").is_none());
}

#[test]
fn error_status_codes() {
    assert_eq!(MyError::DBError("x".to_string()).status_code(), 500);
    assert_eq!(MyError::NotFound("x".to_string()).status_code(), 404);
    assert_eq!(MyError::InvalidInput("x".to_string()).status_code(), 400);
}

#[test]
fn store_details_are_not_disclosed() {
    let e = MyError::DBError("relation \"course\" does not exist".to_string());
    assert_eq!(e.error_response(), "Database error");
    assert_eq!(MyError::NotFound("gone".to_string()).error_response(), "gone");
}

#[test]
fn query_outcomes() {
    assert!(matches!(one_row(Vec::new()), Err(MyError::NotFound(_))));
    assert!(matches!(delete_outcome(0), Err(MyError::NotFound(_))));
    assert_eq!(delete_outcome(1).ok().as_deref(), Some("Course deleted"));
}
