use threadpool::http::HttpError;
use threadpool::pool::ThreadPool;
use threadpool::http::HttpMethod;
use threadpool::http::HttpRequest;
use threadpool::router::Router;

const NOT_FOUND: u64 = 100;
const BAD_REQUEST: u64 = 101;
const INTERNAL: u64 = 102;

fn sample() -> Router {
    let mut r = Router::new(NOT_FOUND, BAD_REQUEST, INTERNAL);
    r.add_route(HttpMethod::GET, "/".to_string(), 1);
    r.add_route(HttpMethod::GET, "/sleep".to_string(), 2);
    r.add_route(HttpMethod::POST, "/".to_string(), 3);
    r
}

#[test]
fn resolve_finds_registered_routes() {
    let r = sample();
    assert_eq!(r.resolve(&HttpMethod::GET, "/"), Some(1));
    assert_eq!(r.resolve(&HttpMethod::GET, "/sleep"), Some(2));
    assert_eq!(r.resolve(&HttpMethod::POST, "/"), Some(3));
}

#[test]
fn resolve_misses_unregistered_routes() {
    let r = sample();
    assert_eq!(r.resolve(&HttpMethod::DELETE, "/"), None);
    assert_eq!(r.resolve(&HttpMethod::GET, "/missing"), None);
    assert_eq!(r.resolve(&HttpMethod::GET, ""), None);
}

#[test]
fn later_registration_wins() {
    let mut r = sample();
    r.add_route(HttpMethod::GET, "/".to_string(), 9);
    assert_eq!(r.resolve(&HttpMethod::GET, "/"), Some(9));
}

#[test]
fn error_handlers_by_status() {
    let r = sample();
    assert_eq!(r.error_handler(&HttpError::NotFound), NOT_FOUND);
    assert_eq!(r.error_handler(&HttpError::BadRequest), BAD_REQUEST);
    assert_eq!(r.error_handler(&HttpError::InternalServerError), INTERNAL);
}

#[test]
fn dispatch_gives_exactly_one_handler_per_request() {
    let r = sample();
    let parsed = HttpRequest::from_header(&vec!["GET /sleep HTTP/1.1".to_string()]);
    assert_eq!(r.dispatch(&parsed), 2);

    let unknown = HttpRequest::from_header(&vec!["PUT /nowhere HTTP/1.1".to_string()]);
    assert_eq!(r.dispatch(&unknown), NOT_FOUND);

    // An unparsable line falls back to the bad-request handler.
    assert_eq!(r.dispatch(&None), BAD_REQUEST);
}

#[test]
fn dispatch_feeds_the_pool_one_job_per_connection() {
    let r = sample();
    let mut pool: ThreadPool<u32> = ThreadPool::new(1);
    let lines = [
        "GET / HTTP/1.1",
        "GET /sleep HTTP/1.1",
        "PUT /nowhere HTTP/1.1",
    ];
    for (conn, line) in lines.iter().enumerate() {
        let parsed = HttpRequest::from_header(&vec![line.to_string()]);
        let handler = r.dispatch(&parsed);
        pool.execute(handler, conn as u32);
    }
    let mut served: Vec<(u64, u32)> = Vec::new();
    while let Some(job) = pool.worker_take(0) {
        served.push((job.handler, job.payload));
        pool.worker_finish(0);
    }
    assert_eq!(served, vec![(1, 0), (2, 1), (NOT_FOUND, 2)]);
}
