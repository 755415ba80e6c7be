//! Tests of the length-clamp policy and of the result-code translation, with
//! the service calls stubbed: each test hands the library a decoded service
//! status and checks the decision it returns.

use getrandom_shim::policy::clamp_len;
use getrandom_shim::policy::DEFAULT_MAX;
use getrandom_shim::policy::STRICT_FLAG;
use getrandom_shim::policy::STRICT_MAX;
use getrandom_shim::status::Description;
use getrandom_shim::status::Errno;
use getrandom_shim::status::ServiceStatus;
use getrandom_shim::status::Summary;
use getrandom_shim::translate::generation_error;
use getrandom_shim::translate::generation_result;
use getrandom_shim::translate::open_session_step;
use getrandom_shim::translate::session_error;
use getrandom_shim::translate::SessionStep;

#[test]
fn strict_clamps_large_request() {
    assert_eq!(clamp_len(10_000_000, STRICT_FLAG), 512);
    assert_eq!(clamp_len(513, STRICT_FLAG), STRICT_MAX);
}

#[test]
fn strict_keeps_small_request() {
    assert_eq!(clamp_len(100, STRICT_FLAG), 100);
    assert_eq!(clamp_len(512, STRICT_FLAG), 512);
}

#[test]
fn relaxed_clamps_at_large_ceiling() {
    assert_eq!(clamp_len(0x2000000, 0), 0x1FF_FFFF);
    assert_eq!(clamp_len(usize::MAX, 0), DEFAULT_MAX);
}

#[test]
fn relaxed_keeps_request() {
    assert_eq!(clamp_len(100, 0), 100);
    assert_eq!(clamp_len(0, 0), 0);
    assert_eq!(clamp_len(0x1FF_FFFF, 0), 0x1FF_FFFF);
}

#[test]
fn other_flag_bits_are_ignored() {
    assert_eq!(clamp_len(10_000_000, 0x1 | 0x4), clamp_len(10_000_000, 0));
    assert_eq!(clamp_len(10_000_000, STRICT_FLAG | 0x8), clamp_len(10_000_000, STRICT_FLAG));
}

#[test]
fn session_queue_full_gives_eagain() {
    assert_eq!(session_error(Summary::WouldBlock), Errno::Again);
    let st = ServiceStatus::Failed {
        summary: Summary::WouldBlock,
        description: Description::Other,
    };
    assert_eq!(
        open_session_step(100, 0, st),
        SessionStep::Fail { errno: Errno::Again }
    );
}

#[test]
fn session_other_failure_gives_reserved() {
    assert_eq!(session_error(Summary::Other), Errno::Reserved);
    assert_eq!(session_error(Summary::InvalidArg), Errno::Reserved);
    assert_eq!(session_error(Summary::WrongArg), Errno::Reserved);
    let st = ServiceStatus::Failed {
        summary: Summary::Other,
        description: Description::InvalidHandle,
    };
    assert_eq!(
        open_session_step(100, 0, st),
        SessionStep::Fail { errno: Errno::Reserved }
    );
}

#[test]
fn generation_would_block_gives_eagain() {
    assert_eq!(generation_error(Summary::WouldBlock, Description::Other), Errno::Again);
    let st = ServiceStatus::Failed {
        summary: Summary::WouldBlock,
        description: Description::Other,
    };
    assert_eq!(generation_result(512, st), Err(Errno::Again));
}

#[test]
fn generation_invalid_handle_gives_reserved() {
    assert_eq!(
        generation_error(Summary::InvalidArg, Description::InvalidHandle),
        Errno::Reserved
    );
    assert_eq!(
        generation_error(Summary::WrongArg, Description::InvalidHandle),
        Errno::Reserved
    );
    let st = ServiceStatus::Failed {
        summary: Summary::InvalidArg,
        description: Description::InvalidHandle,
    };
    assert_eq!(generation_result(512, st), Err(Errno::Reserved));
}

#[test]
fn generation_invalid_arg_gives_einval() {
    assert_eq!(generation_error(Summary::InvalidArg, Description::Other), Errno::Inval);
    assert_eq!(generation_error(Summary::WrongArg, Description::Other), Errno::Inval);
    let st = ServiceStatus::Failed {
        summary: Summary::WrongArg,
        description: Description::Other,
    };
    assert_eq!(generation_result(100, st), Err(Errno::Inval));
}

#[test]
fn generation_other_failure_gives_reserved() {
    assert_eq!(generation_error(Summary::Other, Description::Other), Errno::Reserved);
    let st = ServiceStatus::Failed {
        summary: Summary::Other,
        description: Description::Other,
    };
    assert_eq!(generation_result(100, st), Err(Errno::Reserved));
}

#[test]
fn generation_success_returns_length() {
    assert_eq!(generation_result(512, ServiceStatus::Succeeded), Ok(512));
    assert_eq!(generation_result(0, ServiceStatus::Succeeded), Ok(0));
}

#[test]
fn full_success_path_returns_request() {
    let step = open_session_step(100, 0, ServiceStatus::Succeeded);
    assert_eq!(step, SessionStep::Generate { len: 100 });
    match step {
        SessionStep::Generate { len } => {
            assert_eq!(generation_result(len, ServiceStatus::Succeeded), Ok(100));
        }
        SessionStep::Fail { .. } => unreachable!(),
    }
}

#[test]
fn strict_ceiling_holds_on_every_path() {
    let step = open_session_step(10_000_000, STRICT_FLAG, ServiceStatus::Succeeded);
    assert_eq!(step, SessionStep::Generate { len: 512 });
    let failed = ServiceStatus::Failed {
        summary: Summary::WouldBlock,
        description: Description::Other,
    };
    assert!(matches!(
        open_session_step(10_000_000, STRICT_FLAG, failed),
        SessionStep::Fail { .. }
    ));
    assert_eq!(clamp_len(10_000_000, STRICT_FLAG), 512);
}

#[test]
fn translation_is_deterministic() {
    let st = ServiceStatus::Failed {
        summary: Summary::InvalidArg,
        description: Description::Other,
    };
    assert_eq!(open_session_step(300, STRICT_FLAG, st), open_session_step(300, STRICT_FLAG, st));
    assert_eq!(generation_result(300, st), generation_result(300, st));
    assert_eq!(clamp_len(300, STRICT_FLAG), clamp_len(300, STRICT_FLAG));
}
