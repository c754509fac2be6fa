use middle::{pause, pause_millis, prompt, prompt_with_schema, PromptError, Resumable};
use serde_json::Value;
use std::time::Duration;

#[test]
fn pause_reads_zero_as_not_yet() {
    assert_eq!(pause(0), Resumable::Pause);
    assert_eq!(pause(1), Resumable::Ready(()));
    assert_eq!(pause(u32::MAX), Resumable::Ready(()));
}

#[test]
fn pause_asks_for_whole_milliseconds() {
    assert_eq!(pause_millis(&Duration::from_millis(100)), Some(100));
    assert_eq!(pause_millis(&Duration::from_micros(1999)), Some(1));
    assert_eq!(pause_millis(&Duration::new(2, 500_000_000)), Some(2500));
    assert_eq!(pause_millis(&Duration::ZERO), Some(0));
}

#[test]
fn pause_of_more_milliseconds_than_fit_is_refused() {
    assert_eq!(pause_millis(&Duration::MAX), None);
    assert_eq!(pause_millis(&Duration::from_millis(u64::MAX)), Some(u64::MAX));
}

#[test]
fn prompt_reply_is_read_in_its_three_forms() {
    assert_eq!(prompt_with_schema(Resumable::Pause), Resumable::Pause);
    assert_eq!(
        prompt_with_schema(Resumable::Ready(Ok(Value::Bool(true)))),
        Resumable::Ready(Ok(Value::Bool(true)))
    );
    assert_eq!(
        prompt_with_schema(Resumable::Ready(Err("no actor".to_string()))),
        Resumable::Ready(Err(PromptError::Host("no actor".to_string())))
    );
}

fn as_number(value: Value) -> Result<u64, String> {
    value.as_u64().ok_or_else(|| "not a number".to_string())
}

#[test]
fn prompt_converts_the_value_once_it_is_there() {
    assert_eq!(
        prompt(Resumable::Ready(Ok(Value::from(12u64))), as_number),
        Resumable::Ready(Ok(12))
    );
    assert_eq!(
        prompt(Resumable::Ready(Ok(Value::Null)), as_number),
        Resumable::Ready(Err(PromptError::Deserialize("not a number".to_string())))
    );
    assert_eq!(
        prompt(Resumable::Ready(Err("closed".to_string())), as_number),
        Resumable::Ready(Err(PromptError::Host("closed".to_string())))
    );
}

#[test]
fn prompt_pauses_without_converting() {
    let out = prompt(Resumable::Pause, |_| -> Result<u64, String> {
        panic!("nothing to convert while the host waits")
    });
    assert_eq!(out, Resumable::Pause);
}
