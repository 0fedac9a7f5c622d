use axum::http::StatusCode;
use blog_service::data::model::{Blog, CreateBlog, UpdateBlog};
use blog_service::data::repository::{BlogRepoError, BlogRepository, LocalBlogRepository};
use blog_service::data::table::BlogTable;
use blog_service::route::blog;
use blog_service::route::health::health;
use blog_service::utils::AppError;
use uuid::Uuid;

fn empty_repo() -> LocalBlogRepository {
    LocalBlogRepository::new(BlogTable::new())
}

fn payload(user_id: u128, name: &str) -> CreateBlog {
    CreateBlog { user_id, name: name.to_string() }
}

#[test]
fn test_health() {
    let (status, text) = health();

    assert_eq!(status, StatusCode::OK.as_u16());
    assert_eq!(text, "Healthy");
}

#[test]
fn test_create() {
    let user_id = Uuid::new_v4().as_u128();
    let name = "New blog";

    let mut blog_repo = empty_repo();
    let new_blog = CreateBlog { user_id, name: name.to_string() };
    blog_repo.create_one(new_blog.clone()).unwrap();

    let blogs: Vec<Blog> = blog::get_all(&blog_repo).unwrap();
    let blog = blogs
        .into_iter()
        .find(|blog| blog.user_id == user_id)
        .expect("at least 1 blog should present");

    assert_eq!(blog.name, name);
}

#[test]
fn endpoints_pass_results_on() {
    let mut repo = empty_repo();
    let created = blog::create_one(&mut repo, payload(5, "five")).unwrap();
    let id = created.blog_id;

    assert_eq!(blog::get_one(&repo, id), Ok(created.clone()));
    assert_eq!(blog::get_all(&repo), Ok(vec![created]));

    let updated =
        blog::update_one(&mut repo, id, UpdateBlog { user_id: 6, name: "six".to_string() });
    let expected = Blog { blog_id: id, user_id: 6, name: "six".to_string() };
    assert_eq!(updated, Ok(expected.clone()));

    assert_eq!(blog::delete_one(&mut repo, id), Ok(expected));
    assert_eq!(blog::get_all(&repo), Ok(Vec::new()));
}

#[test]
fn endpoints_wrap_the_missing_blog() {
    let mut repo = empty_repo();
    let missing = AppError::BlogRepo(BlogRepoError::NoBlogById);

    assert_eq!(blog::get_one(&repo, 1), Err(missing));
    assert_eq!(blog::delete_one(&mut repo, 1), Err(missing));
    assert_eq!(blog::get_one(&repo, 1).unwrap_err().status_code(), 404);
}

#[test]
fn health_needs_no_storage() {
    let mut repo = empty_repo();
    let before = health();
    repo.create_one(payload(1, "x")).unwrap();
    assert_eq!(health(), before);
    assert_eq!(health(), (200, "Healthy"));
}
