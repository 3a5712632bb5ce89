use glamour::dossier::TestRun;
use glamour::dossier::_all_test_run_set;
use glamour::dossier::test_run_set_from_res;
use glamour::gl_error::GL_INVALID_ENUM;
use glamour::gl_error::GL_INVALID_OPERATION;
use glamour::gl_error::GL_INVALID_VALUE;
use glamour::gl_error::GL_OUT_OF_MEMORY;
use glamour::gl_error::GL_STACK_OVERFLOW;
use glamour::gl_error::GL_STACK_UNDERFLOW;
use glamour::gl_error::gl_get_error_name;

#[test]
fn gl_error_names_decode() {
    assert_eq!(gl_get_error_name(&GL_INVALID_ENUM), "INVALID_ENUM");
    assert_eq!(gl_get_error_name(&GL_INVALID_VALUE), "INVALID_VALUE");
    assert_eq!(gl_get_error_name(&GL_INVALID_OPERATION), "INVALID_OPERATION");
    assert_eq!(gl_get_error_name(&GL_OUT_OF_MEMORY), "OUT_OF_MEMORY");
    assert_eq!(gl_get_error_name(&GL_STACK_UNDERFLOW), "STACK_UNDERFLOW");
    assert_eq!(gl_get_error_name(&GL_STACK_OVERFLOW), "STACK_OVERFLOW");
    assert_eq!(gl_get_error_name(&0x0506), "INVALID_FRAMEBUFFER_OPERATION");
    assert_eq!(gl_get_error_name(&0x1234), "Unknown Error");
}

fn run(res: (u32, u32), deferred: bool, lights: u32, cubes: u32) -> TestRun {
    TestRun { resolution: res, deferred, lights, cubes }
}

#[test]
fn run_set_for_one_resolution_is_the_full_cross_product() {
    let lights = vec![0u32, 9];
    let cubes = vec![0u32, 1, 4];
    let res = (640u32, 360u32);
    let runs = test_run_set_from_res(res, &lights, &cubes);
    assert_eq!(runs.len(), 12);
    // Forward first, then deferred; light-major, cube-minor.
    assert_eq!(runs[0], run(res, false, 0, 0));
    assert_eq!(runs[1], run(res, false, 0, 1));
    assert_eq!(runs[2], run(res, false, 0, 4));
    assert_eq!(runs[3], run(res, false, 9, 0));
    assert_eq!(runs[5], run(res, false, 9, 4));
    assert_eq!(runs[6], run(res, true, 0, 0));
    assert_eq!(runs[11], run(res, true, 9, 4));
}

#[test]
fn all_run_sets_walk_resolutions_in_order() {
    let resolutions = vec![(640u32, 360u32), (1280u32, 720u32)];
    let lights = vec![1u32];
    let cubes = vec![2u32, 3];
    let runs = _all_test_run_set(&resolutions, &lights, &cubes);
    assert_eq!(runs.len(), 8);
    assert_eq!(runs[0], run((640, 360), false, 1, 2));
    assert_eq!(runs[3], run((640, 360), true, 1, 3));
    assert_eq!(runs[4], run((1280, 720), false, 1, 2));
    assert_eq!(runs[7], run((1280, 720), true, 1, 3));
}

#[test]
fn empty_steps_give_empty_run_sets() {
    let runs = test_run_set_from_res((640, 360), &vec![], &vec![0, 1]);
    assert_eq!(runs.len(), 0);
    let runs = test_run_set_from_res((640, 360), &vec![0, 1], &vec![]);
    assert_eq!(runs.len(), 0);
}
