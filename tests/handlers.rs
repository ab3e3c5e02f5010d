use webservice::db_access::CourseStore;
use webservice::handlers::{
    delete_course, get_course_detail, get_course_for_teacher, post_new_course,
    record_visit, update_coruse_detail, Response, ResponseBody,
};
use webservice::models::{Course, CreateCourseRequest, UpdateCourse};

fn request(teacher_id: Option<i32>, name: Option<&str>) -> CreateCourseRequest {
    CreateCourseRequest {
        teacher_id,
        name: name.map(|n| n.to_string()),
        description: None,
        format: None,
        structure: None,
        duration: None,
        price: None,
        language: None,
        level: None,
    }
}

fn course_of(resp: Response) -> Course {
    match resp.body {
        ResponseBody::Course(c) => c,
        _ => panic!("expected a course"),
    }
}

/// A table with two courses of teacher 1, identities 1 and 2.
fn seeded() -> CourseStore {
    let mut store = CourseStore::new();
    let mut first = request(Some(1), Some("First course"));
    first.description = Some("The first".to_string());
    first.price = Some(100);
    assert_eq!(post_new_course(&mut store, first, 1_000).status, 200);
    let mut second = request(Some(1), Some("Second course"));
    second.level = Some("Advanced".to_string());
    second.format = Some("Video".to_string());
    assert_eq!(post_new_course(&mut store, second, 2_000).status, 200);
    store
}

#[test]
fn post_course_test() {
    let mut store = seeded();
    let course = CreateCourseRequest {
        teacher_id: Some(1),
        name: Some("Test course.".into()),
        description: Some("This is a course".into()),
        format: None,
        structure: None,
        duration: None,
        price: None,
        language: Some("English".into()),
        level: Some("Beginnner".into()),
    };
    let resp = post_new_course(&mut store, course, 5_000);
    assert_eq!(resp.status, 200);
}

#[test]
fn get_all_course_success() {
    let store = seeded();
    let response = get_course_for_teacher(&store, 1);
    assert_eq!(response.status, 200)
}

#[test]
fn get_one_coruse_success() {
    let store = seeded();
    let response = get_course_detail(&store, 1, 1);
    assert_eq!(response.status, 200)
}

#[test]
fn get_one_coruse_failure() {
    let store = seeded();
    let response = get_course_detail(&store, 1, 100);
    assert_eq!(response.status, 404);
}

#[test]
fn update_coruse_success() {
    let mut store = seeded();
    let update_coruse = UpdateCourse {
        name: Some("ChangeName".into()),
        description: Some("ChangeDescription".into()),
        format: Some("ChangeFormat".into()),
        structure: Some("ChangeStructrue".into()),
        duration: Some("ChangeDuration".into()),
        price: None,
        language: Some("Chinese".into()),
        level: None,
    };
    let response = update_coruse_detail(&mut store, update_coruse, 1, 2);
    assert_eq!(response.status, 200)
}

#[test]
fn post_returns_generated_id_and_time() {
    let mut store = seeded();
    let mut body = request(Some(1), Some("Test course."));
    body.description = Some("This is a course".to_string());
    let resp = post_new_course(&mut store, body, 7_777);
    assert_eq!(resp.status, 200);
    let c = course_of(resp);
    assert_eq!(c.id, 3);
    assert_eq!(c.posted_time, 7_777);
    assert_eq!(c.name, "Test course.");
    assert_eq!(c.teacher_id, 1);
    assert_eq!(c.description.as_deref(), Some("This is a course"));
}

#[test]
fn post_without_name_is_rejected() {
    let mut store = seeded();
    let resp = post_new_course(&mut store, request(Some(1), None), 1);
    assert_eq!(resp.status, 400);
    assert_eq!(store.list_by_teacher(1).len(), 2);
}

#[test]
fn post_without_teacher_is_rejected() {
    let mut store = seeded();
    let resp = post_new_course(&mut store, request(None, Some("x")), 1);
    assert_eq!(resp.status, 400);
    match resp.body {
        ResponseBody::Text(t) => assert_eq!(t, "teacher_id is required"),
        _ => panic!("expected a text body"),
    }
}

#[test]
fn create_then_get_returns_same_fields() {
    let mut store = CourseStore::new();
    let mut body = request(Some(4), Some("Rust"));
    body.duration = Some("10 weeks".to_string());
    body.price = Some(250);
    body.language = Some("English".to_string());
    let created = course_of(post_new_course(&mut store, body, 42));
    let got = course_of(get_course_detail(&store, 4, created.id));
    assert_eq!(got.teacher_id, 4);
    assert_eq!(got.name, "Rust");
    assert_eq!(got.duration.as_deref(), Some("10 weeks"));
    assert_eq!(got.price, Some(250));
    assert_eq!(got.language.as_deref(), Some("English"));
    assert_eq!(got.description, None);
    assert_eq!(got.posted_time, 42);
}

#[test]
fn get_missing_course_is_404() {
    let store = seeded();
    let resp = get_course_detail(&store, 1, 9999);
    assert_eq!(resp.status, 404);
    match resp.body {
        ResponseBody::Text(t) => assert_eq!(t, "Course not found"),
        _ => panic!("expected a text body"),
    }
}

#[test]
fn get_is_scoped_by_teacher() {
    let store = seeded();
    assert_eq!(get_course_detail(&store, 2, 1).status, 404);
}

#[test]
fn partial_update_keeps_other_fields() {
    let mut store = seeded();
    let before = course_of(get_course_detail(&store, 1, 2));
    let patch = UpdateCourse {
        name: Some("ChangeName".to_string()),
        description: None,
        format: None,
        structure: None,
        duration: None,
        price: None,
        language: None,
        level: None,
    };
    assert_eq!(update_coruse_detail(&mut store, patch, 1, 2).status, 200);
    let after = course_of(get_course_detail(&store, 1, 2));
    assert_eq!(after.name, "ChangeName");
    assert_eq!(after.id, before.id);
    assert_eq!(after.teacher_id, before.teacher_id);
    assert_eq!(after.description, before.description);
    assert_eq!(after.format.as_deref(), Some("Video"));
    assert_eq!(after.level.as_deref(), Some("Advanced"));
    assert_eq!(after.price, before.price);
    assert_eq!(after.posted_time, 2_000);
    let other = course_of(get_course_detail(&store, 1, 1));
    assert_eq!(other.name, "First course");
}

#[test]
fn update_missing_course_is_404() {
    let mut store = seeded();
    let patch = UpdateCourse {
        name: Some("x".to_string()),
        description: None,
        format: None,
        structure: None,
        duration: None,
        price: Some(1),
        language: None,
        level: None,
    };
    assert_eq!(update_coruse_detail(&mut store, patch, 1, 50).status, 404);
}

#[test]
fn delete_twice_gives_not_found() {
    let mut store = seeded();
    let first = delete_course(&mut store, 1, 1);
    assert_eq!(first.status, 200);
    match first.body {
        ResponseBody::Text(t) => assert_eq!(t, "Course deleted"),
        _ => panic!("expected a text body"),
    }
    assert_eq!(delete_course(&mut store, 1, 1).status, 404);
    assert_eq!(get_course_detail(&store, 1, 1).status, 404);
    assert_eq!(get_course_detail(&store, 1, 2).status, 200);
    assert_eq!(store.list_by_teacher(1).len(), 1);
}

#[test]
fn list_for_teacher_without_courses_is_empty() {
    let store = seeded();
    let resp = get_course_for_teacher(&store, 77);
    assert_eq!(resp.status, 200);
    match resp.body {
        ResponseBody::Courses(v) => assert!(v.is_empty()),
        _ => panic!("expected a list"),
    }
}

#[test]
fn list_keeps_creation_order() {
    let mut store = seeded();
    post_new_course(&mut store, request(Some(2), Some("Other")), 3);
    post_new_course(&mut store, request(Some(1), Some("Third")), 4);
    let names: Vec<String> = store.list_by_teacher(1).into_iter().map(|c| c.name).collect();
    assert_eq!(names, vec!["First course", "Second course", "Third"]);
}

#[test]
fn visits_are_counted() {
    let mut count: u64 = 0;
    assert_eq!(record_visit(&mut count), 0);
    assert_eq!(record_visit(&mut count), 1);
    assert_eq!(count, 2);
    let mut full = u64::MAX;
    assert_eq!(record_visit(&mut full), u64::MAX);
    assert_eq!(full, u64::MAX);
}
