use posts_api::db::{DbConfig, DB};
use posts_api::error::{classify_insert_error, handle_rejection, str_contains, Error, Rejection};
use posts_api::handler::{
    create_post_handler, get_post_handler, health_checker_handler, posts_list_handler,
    GetPostReply,
};
use posts_api::model::PostModel;
use posts_api::oid::{id_to_hex, parse_hex_id, PostId};
use posts_api::schema::{CreatePostSchema, FilterOptions};

fn body(title: &str, content: &str, published: Option<bool>) -> CreatePostSchema {
    CreatePostSchema {
        title: String::from(title),
        content: String::from(content),
        published,
    }
}

fn db_with_posts(n: usize) -> DB {
    let mut db = DB::init();
    let mut i = 0;
    while i < n {
        let b = body(&format!("title-{}", i), &format!("content-{}", i), None);
        let r = db.create_post_at(&b, 1000 + i as i64);
        assert!(r.is_ok());
        i += 1;
    }
    db
}

#[test]
fn health_check_envelope() {
    let r = health_checker_handler();
    assert_eq!(r.status, "success");
    assert_eq!(r.message, "LinkedIn App lol");
}

#[test]
fn create_unique_title_gives_201_and_equal_timestamps() {
    let mut db = DB::init();
    let b = body("A", "B", None);
    let r = create_post_handler(&b, &mut db);
    let (env, code) = r.unwrap();
    assert_eq!(code, 201);
    let env = env.unwrap();
    assert_eq!(env.status, "success");
    let post = &env.data.post;
    assert_eq!(post.title, "A");
    assert_eq!(post.content, "B");
    assert!(!post.published);
    assert_eq!(post.createdAt, post.updatedAt);
    assert_eq!(post.id.len(), 24);
    assert_eq!(post.id, "000000000000000000000000");
}

#[test]
fn create_duplicate_title_gives_conflict_and_persists_nothing() {
    let mut db = DB::init();
    let first = create_post_handler(&body("A", "B", None), &mut db);
    assert!(first.is_ok());
    assert_eq!(db.posts.len(), 1);
    let second = create_post_handler(&body("A", "other", Some(true)), &mut db);
    let err = match second {
        Err(e) => e,
        Ok(_) => panic!("duplicate title accepted"),
    };
    assert!(matches!(err, Error::MongoDuplicateError(_)));
    assert_eq!(db.posts.len(), 1);
    let (code, resp) = handle_rejection(&Rejection::App(err));
    assert_eq!(code, 409);
    assert_eq!(resp.status, "fail");
    assert_eq!(resp.message, "Duplicate key error");
}

#[test]
fn created_post_round_trips_through_its_returned_id() {
    let mut db = DB::init();
    let b = body("hello", "world", Some(true));
    let created = db.create_post_at(&b, 42).unwrap().unwrap();
    let id = created.data.post.id.clone();
    let fetched = get_post_handler(id.clone(), &db).unwrap();
    match fetched {
        GetPostReply::Found(code, env) => {
            assert_eq!(code, 200);
            let p = &env.data.post;
            assert_eq!(p.id, id);
            assert_eq!(p.title, "hello");
            assert_eq!(p.content, "world");
            assert!(p.published);
            assert_eq!(p.createdAt, 42);
            assert_eq!(p.updatedAt, 42);
        }
        GetPostReply::NotFound(_, _) => panic!("created post not found by its id"),
    }
}

#[test]
fn get_missing_wellformed_id_gives_404_with_message() {
    let db = db_with_posts(1);
    let id = String::from("aaaaaaaaaaaaaaaaaaaaaaaa");
    let r = get_post_handler(id, &db).unwrap();
    match r {
        GetPostReply::NotFound(code, g) => {
            assert_eq!(code, 404);
            assert_eq!(g.status, "fail");
            assert_eq!(g.message, "Post with ID: aaaaaaaaaaaaaaaaaaaaaaaa not found");
        }
        GetPostReply::Found(_, _) => panic!("missing id reported found"),
    }
}

#[test]
fn get_malformed_id_gives_400_echoing_it() {
    let db = DB::init();
    let r = get_post_handler(String::from("not-a-hex-id"), &db);
    let err = match r {
        Err(e) => e,
        Ok(_) => panic!("malformed id accepted"),
    };
    match &err {
        Error::InvalidIDError(s) => assert_eq!(s, "not-a-hex-id"),
        _ => panic!("wrong error kind"),
    }
    let (code, resp) = handle_rejection(&Rejection::App(err));
    assert_eq!(code, 400);
    assert_eq!(resp.status, "fail");
    assert!(resp.message.contains("not-a-hex-id"));
}

#[test]
fn list_limit_2_page_2_skips_first_two() {
    let db = db_with_posts(5);
    let opts = FilterOptions { page: Some(2), limit: Some(2) };
    let list = posts_list_handler(&opts, &db).unwrap();
    assert_eq!(list.status, "success");
    assert_eq!(list.results, 2);
    assert!(list.posts.len() <= 2);
    assert_eq!(list.posts[0].title, "title-2");
    assert_eq!(list.posts[1].title, "title-3");
}

#[test]
fn list_defaults_to_limit_10_page_1() {
    let db = db_with_posts(11);
    let opts = FilterOptions { page: None, limit: None };
    let list = posts_list_handler(&opts, &db).unwrap();
    assert_eq!(list.results, 10);
    assert_eq!(list.posts[0].title, "title-0");
    assert_eq!(list.posts[9].title, "title-9");
}

#[test]
fn list_beyond_end_is_empty() {
    let db = db_with_posts(3);
    let opts = FilterOptions { page: Some(5), limit: Some(2) };
    let list = posts_list_handler(&opts, &db).unwrap();
    assert_eq!(list.results, 0);
    assert!(list.posts.is_empty());
}

#[test]
fn id_renders_as_24_lowercase_hex_digits() {
    let id = PostId { hi: 1, lo: 0xdead_beef };
    assert_eq!(id_to_hex(&id), "0000000100000000deadbeef");
}

#[test]
fn hex_id_parses_both_cases_and_round_trips() {
    let parsed = parse_hex_id("0000000100000000DEADbeef").unwrap();
    assert_eq!(parsed.hi, 1);
    assert_eq!(parsed.lo, 0xdead_beef);
    let again = parse_hex_id(&id_to_hex(&parsed)).unwrap();
    assert_eq!(again, parsed);
}

#[test]
fn malformed_hex_ids_are_rejected() {
    assert!(parse_hex_id("").is_none());
    assert!(parse_hex_id("0123456789abcdef0123456").is_none());
    assert!(parse_hex_id("0123456789abcdef012345678").is_none());
    assert!(parse_hex_id("0123456789abcdef0123456g").is_none());
    assert!(parse_hex_id("0123456789abcdef0123456é").is_none());
}

#[test]
fn insert_error_classification_looks_for_duplicate_marker() {
    let dup = classify_insert_error(
        "E11000 duplicate key error collection: db.posts index: title_1",
    );
    assert!(matches!(dup, Error::MongoDuplicateError(_)));
    let other = classify_insert_error("connection reset by peer");
    match other {
        Error::MongoQueryError(m) => assert_eq!(m, "connection reset by peer"),
        _ => panic!("wrong classification"),
    }
}

#[test]
fn substring_search_agrees_with_std() {
    assert!(str_contains("abcdef", "cde"));
    assert!(str_contains("abcdef", ""));
    assert!(!str_contains("abcdef", "cdf"));
    assert!(!str_contains("ab", "abc"));
}

#[test]
fn rejection_mapping_covers_every_branch() {
    let cases = [
        (Rejection::NotFound, 404, "failed", "Route does not exist on server"),
        (Rejection::BodyDeserialize, 400, "failed", "Invalid Body"),
        (Rejection::App(Error::MongoError(String::from("x"))), 500, "fail", "mongodb error"),
        (
            Rejection::App(Error::MongoQueryError(String::from("x"))),
            500,
            "fail",
            "Error during mongodb query",
        ),
        (
            Rejection::App(Error::MongoSerializeBsonError(String::from("x"))),
            500,
            "fail",
            "Error serializing BSON",
        ),
        (
            Rejection::App(Error::MongoDataError(String::from("x"))),
            400,
            "fail",
            "validation error",
        ),
        (Rejection::MethodNotAllowed, 405, "failed", "Method not allowed"),
        (Rejection::Other, 500, "error", "Internal Server error"),
    ];
    for (rej, code, status, message) in cases {
        let (c, resp) = handle_rejection(&rej);
        assert_eq!(c, code);
        assert_eq!(resp.status, status);
        assert_eq!(resp.message, message);
    }
}

#[test]
fn stored_document_without_published_flag_is_a_data_error() {
    let db = DB::init();
    let doc = PostModel {
        id: PostId { hi: 0, lo: 0 },
        title: String::from("t"),
        content: String::from("c"),
        published: None,
        createdAt: 0,
        updatedAt: 0,
    };
    assert!(matches!(db.doc_to_post(&doc), Err(Error::MongoDataError(_))));
    let ok = PostModel { published: Some(true), ..doc };
    let rendered = db.doc_to_post(&ok).unwrap();
    assert!(rendered.published);
    assert_eq!(rendered.id, "000000000000000000000000");
}

#[test]
fn config_requires_every_parameter() {
    let c = DbConfig::new(
        Some(String::from("mongodb://localhost:27017")),
        Some(String::from("app")),
        Some(String::from("posts")),
    )
    .unwrap();
    assert_eq!(c.database_name, "app");
    assert!(DbConfig::new(None, Some(String::from("app")), Some(String::from("posts"))).is_none());
    assert!(DbConfig::new(Some(String::from("u")), None, Some(String::from("p"))).is_none());
    assert!(DbConfig::new(Some(String::from("u")), Some(String::from("n")), None).is_none());
}

#[test]
fn create_keeps_requested_published_flag() {
    let mut db = DB::init();
    let created = db.create_post_at(&body("t", "c", Some(true)), 7).unwrap().unwrap();
    assert!(created.data.post.published);
    let created2 = db.create_post_at(&body("t2", "c2", Some(false)), 8).unwrap().unwrap();
    assert!(!created2.data.post.published);
}

#[test]
fn create_posts_uses_clock_but_keeps_timestamps_equal() {
    let mut db = DB::init();
    let env = db.create_posts(&body("t", "c", None)).unwrap().unwrap();
    assert_eq!(env.data.post.createdAt, env.data.post.updatedAt);
    assert_eq!(db.posts.len(), 1);
}

#[test]
fn consecutive_creates_get_distinct_sequential_ids() {
    let mut db = db_with_posts(2);
    assert_eq!(db.posts[0].id.lo, 0);
    assert_eq!(db.posts[1].id.lo, 1);
    let first = get_post_handler(String::from("000000000000000000000000"), &db).unwrap();
    let second = get_post_handler(String::from("000000000000000000000001"), &db).unwrap();
    match (first, second) {
        (GetPostReply::Found(_, a), GetPostReply::Found(_, b)) => {
            assert_eq!(a.data.post.title, "title-0");
            assert_eq!(b.data.post.title, "title-1");
            assert_ne!(a.data.post.id, b.data.post.id);
        }
        _ => panic!("stored posts not found by their ids"),
    }
    let third = db.create_post_at(&body("t3", "c3", None), 9).unwrap().unwrap();
    assert_eq!(third.data.post.id, "000000000000000000000002");
}

#[test]
fn create_and_fetch_through_the_handlers() {
    let mut db = DB::init();
    let (env, code) = create_post_handler(&body("A", "B", None), &mut db).unwrap();
    assert_eq!(code, 201);
    let env = env.unwrap();
    assert_eq!(env.status, "success");
    assert!(!env.data.post.published);
    let id = env.data.post.id.clone();
    match get_post_handler(id.clone(), &db).unwrap() {
        GetPostReply::Found(code, got) => {
            assert_eq!(code, 200);
            assert_eq!(got.status, "success");
            assert_eq!(got.data.post.id, id);
            assert_eq!(got.data.post.title, "A");
            assert_eq!(got.data.post.content, "B");
            assert_eq!(got.data.post.createdAt, env.data.post.createdAt);
            assert_eq!(got.data.post.updatedAt, env.data.post.updatedAt);
        }
        GetPostReply::NotFound(_, _) => panic!("created post not found"),
    }
}
