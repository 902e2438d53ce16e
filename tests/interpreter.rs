use std::time::Duration;

use event_bridge::drain::{after_job, after_poll, DrainOutcome, DrainStep, Settlement};
use event_bridge::timer::TimerTask;
use rquickjs::{
    prelude::Func, promise::Promise, AsyncContext, AsyncRuntime, CatchResultExt, Context, Ctx,
    Function, IntoJs, Runtime, Undefined, Value,
};

fn block_until_complete<'js>(ctx: Ctx<'js>, promise: Promise<'js>) -> rquickjs::Result<Value<'js>> {
    loop {
        let settlement = match promise.result::<Value>() {
            None => Settlement::Pending,
            Some(Ok(v)) => Settlement::Fulfilled(v),
            Some(Err(e)) => Settlement::Rejected(e),
        };
        let outcome = match after_poll(settlement) {
            DrainStep::Finish(o) => Some(o),
            DrainStep::RunJob => after_job(ctx.execute_pending_job()),
        };
        match outcome {
            None => {}
            Some(DrainOutcome::Fulfilled(v)) => return Ok(v),
            Some(DrainOutcome::Rejected(e)) => return Err(e),
            Some(DrainOutcome::GaveUp) => return Undefined.into_js(&ctx),
        }
    }
}

fn set_timeout_spawn<'js>(ctx: Ctx<'js>, callback: Function<'js>, millis: usize) -> rquickjs::Result<()> {
    let mut task = TimerTask::new(millis);
    let task_ctx = ctx.clone();
    ctx.spawn(async move {
        tokio::time::sleep(Duration::from_millis(task.sleep_millis())).await;
        if task.expire() {
            let returned = callback.call::<_, ()>(()).catch(&task_ctx).map_err(|e| e.to_string());
            if let Some(err) = task.finish(returned) {
                println!("{}", err);
            }
        }
    });
    Ok(())
}

fn eval_sync(source: &str) -> String {
    let rt = Runtime::new().unwrap();
    let ctx = Context::full(&rt).unwrap();
    ctx.with(|ctx| {
        ctx.globals().set("blockUntilComplete", Func::from(block_until_complete)).unwrap();
        let v: rquickjs::Result<Value> = ctx.eval(source);
        match v.catch(&ctx) {
            Ok(v) => {
                if v.is_undefined() {
                    "undefined".to_string()
                } else {
                    match v.as_int() {
                        Some(n) => n.to_string(),
                        None => "other".to_string(),
                    }
                }
            }
            Err(e) => format!("error: {}", e),
        }
    })
}

/// Runs `source` with `setTimeout` and `blockUntilComplete` installed and a
/// `log(text)` global that records each line with the time it was written,
/// waits until every timer has run, and returns the records as `[text, ms]`.
fn run_async(source: &str) -> Vec<(String, f64)> {
    let tokio_rt = tokio::runtime::Runtime::new().unwrap();
    let source = source.to_string();
    tokio_rt.block_on(async move {
        let rt = AsyncRuntime::new().unwrap();
        let ctx = AsyncContext::full(&rt).await.unwrap();
        ctx.with(|ctx| {
            let globals = ctx.globals();
            globals.set("blockUntilComplete", Func::from(block_until_complete)).unwrap();
            globals.set("setTimeout", Func::from(set_timeout_spawn)).unwrap();
            let prelude = "globalThis.lines = []; globalThis.log = (t) => lines.push([t, Date.now()]);";
            ctx.eval::<(), _>(prelude).unwrap();
            ctx.eval::<(), _>(source.as_str()).catch(&ctx).unwrap();
        })
        .await;
        rt.idle().await;
        ctx.with(|ctx| {
            let words: Vec<String> = ctx.eval("lines.map((l) => l[0])").unwrap();
            let times: Vec<f64> = ctx.eval("lines.map((l) => l[1])").unwrap();
            words.into_iter().zip(times).collect::<Vec<(String, f64)>>()
        })
        .await
    })
}

fn texts(lines: &[(String, f64)]) -> Vec<String> {
    lines.iter().map(|l| l.0.clone()).collect()
}

#[test]
fn drain_returns_value_reached_through_queued_jobs() {
    assert_eq!(eval_sync("blockUntilComplete(Promise.resolve(5).then((x) => x + 1).then((x) => x * 2))"), "12");
}

#[test]
fn drain_returns_already_fulfilled_value() {
    assert_eq!(eval_sync("blockUntilComplete(Promise.resolve(7))"), "7");
}

#[test]
fn drain_gives_up_on_a_promise_no_job_can_settle() {
    assert_eq!(eval_sync("blockUntilComplete(new Promise(() => {}))"), "undefined");
}

#[test]
fn drain_propagates_a_rejection() {
    let r = eval_sync("blockUntilComplete(Promise.reject(new Error('nope')))");
    assert!(r.starts_with("error: "));
    assert!(r.contains("nope"));
}

#[test]
fn drain_gives_up_on_a_timer_promise() {
    let lines = run_async(
        "let r = blockUntilComplete(new Promise((res) => setTimeout(() => res(1), 200))); log(String(r));",
    );
    assert_eq!(texts(&lines), vec!["undefined".to_string()]);
}

#[test]
fn shorter_timer_fires_first() {
    let lines = run_async(
        "setTimeout(() => log('long'), 300); setTimeout(() => log('short'), 100);",
    );
    assert_eq!(texts(&lines), vec!["short".to_string(), "long".to_string()]);
}

#[test]
fn throwing_timer_callback_does_not_stop_later_timers() {
    let lines = run_async(
        "setTimeout(() => { throw new Error('boom'); }, 50); setTimeout(() => log('later'), 150);",
    );
    assert_eq!(texts(&lines), vec!["later".to_string()]);
}

#[test]
fn scenario_await_timer_promise() {
    let lines = run_async(
        "(async () => { log('before promise'); await new Promise((res) => setTimeout(res, 1000)); log('after promise'); })();",
    );
    assert_eq!(texts(&lines), vec!["before promise".to_string(), "after promise".to_string()]);
    assert!(lines[1].1 - lines[0].1 >= 999.0);
}

#[test]
fn scenario_nested_timers_and_blocking() {
    let lines = run_async(
        r#"setTimeout(() => {
             log("nested setTimeout 1");
             setTimeout(async () => {
               log("nested setTimeout 2");
               await new Promise((res) => setTimeout(res, 1000));
               log("nested setTimeout 3");
               blockUntilComplete(new Promise((res) => setTimeout(res, 1000)));
               log("blocking");
             }, 1000);
           }, 1000);"#,
    );
    assert_eq!(
        texts(&lines),
        vec![
            "nested setTimeout 1".to_string(),
            "nested setTimeout 2".to_string(),
            "nested setTimeout 3".to_string(),
            "blocking".to_string(),
        ]
    );
    assert!(lines[1].1 - lines[0].1 >= 999.0);
    assert!(lines[2].1 - lines[1].1 >= 999.0);
    assert!(lines[3].1 - lines[2].1 < 500.0);
}

#[test]
fn idle_wait_runs_every_scheduled_timer() {
    let lines = run_async(
        "setTimeout(() => { log('first'); setTimeout(() => log('second'), 100); }, 100);",
    );
    assert_eq!(texts(&lines), vec!["first".to_string(), "second".to_string()]);
}
