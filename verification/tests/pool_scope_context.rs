use pingpong_engine::context::RequestContext;
use pingpong_engine::pool::ContextPool;
use pingpong_engine::scope::MetadataScope;

fn used_context() -> RequestContext {
    let mut ctx = RequestContext::new();
    ctx.peer = Some(String::from("10.0.0.1:7000"));
    ctx.method = Some(String::from("ping"));
    ctx.seq_id = Some(42);
    ctx.started_at = Some(100);
    ctx.ended_at = Some(250);
    ctx.conn_reset = true;
    ctx.transport_reset = true;
    ctx
}

#[test]
fn fresh_context_has_default_fields() {
    let ctx = RequestContext::new();
    assert_eq!(ctx.peer, None);
    assert_eq!(ctx.method, None);
    assert_eq!(ctx.req_kind, None);
    assert_eq!(ctx.resp_kind, None);
    assert_eq!(ctx.seq_id, None);
    assert_eq!(ctx.started_at, None);
    assert_eq!(ctx.ended_at, None);
    assert!(!ctx.conn_reset);
    assert!(!ctx.transport_reset);
    assert_eq!(ctx, RequestContext::default());
}

#[test]
fn reset_restores_every_field() {
    let mut ctx = used_context();
    ctx.reset();
    assert_eq!(ctx, RequestContext::new());
}

#[test]
fn pool_capacity_two_three_acquires_three_releases() {
    // Capacity-2 pool: three sequential acquires (the third must construct
    // fresh), then three releases; the last release overflows and is dropped.
    let mut pool = ContextPool::with_capacity(2);
    pool.release(used_context());
    pool.release(used_context());
    assert_eq!(pool.len(), 2);

    let a = pool.acquire();
    let b = pool.acquire();
    assert_eq!(pool.len(), 0);
    let c = pool.acquire(); // nothing idle: constructed fresh
    assert_eq!(pool.len(), 0);

    pool.release(a);
    pool.release(b);
    pool.release(c);
    assert_eq!(pool.len(), 2);
}

#[test]
fn release_to_full_pool_drops_and_never_exceeds_capacity() {
    let mut pool = ContextPool::with_capacity(1);
    pool.release(used_context());
    assert_eq!(pool.len(), 1);
    pool.release(used_context());
    assert_eq!(pool.len(), 1);
    assert!(pool.len() <= pool.capacity);
}

#[test]
fn released_then_reacquired_context_is_default() {
    let mut pool = ContextPool::with_capacity(4);
    pool.release(used_context());
    let ctx = pool.acquire();
    assert_eq!(ctx, RequestContext::new());
}

#[test]
fn zero_capacity_pool_stores_nothing() {
    let mut pool = ContextPool::with_capacity(0);
    pool.release(used_context());
    assert_eq!(pool.len(), 0);
}

#[test]
fn scope_records_then_clears() {
    let mut scope = MetadataScope::new();
    assert_eq!(scope.len(), 0);
    scope.insert(String::from("trace-id"), String::from("abc"));
    scope.insert(String::from("tenant"), String::from("blue"));
    assert_eq!(scope.len(), 2);
    assert_eq!(scope.entries[0].0, "trace-id");
    assert_eq!(scope.entries[1].1, "blue");
    scope.clear();
    assert_eq!(scope.len(), 0);
}
