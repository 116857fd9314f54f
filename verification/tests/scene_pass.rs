use goshenite::renderer::scene_pass::{calc_work_group_count, work_group_size, ScenePassError};

#[test]
fn work_group_count_rounds_up() {
    assert_eq!(calc_work_group_count([1000, 1000], [1920, 1080], [16, 16]), Ok([120, 68, 1]));
    assert_eq!(calc_work_group_count([1000, 1000], [1921, 1], [16, 16]), Ok([121, 1, 1]));
    assert_eq!(calc_work_group_count([1000, 1000], [0, 0], [8, 8]), Ok([0, 0, 1]));
}

#[test]
fn work_group_count_over_the_limit_is_refused() {
    assert_eq!(
        calc_work_group_count([100, 100], [1920, 1080], [16, 16]),
        Err(ScenePassError::UnsupportedWorkGroupCount { group_count: [120, 68], group_count_limit: [100, 100] })
    );
    assert!(calc_work_group_count([120, 67], [1920, 1080], [16, 16]).is_err());
    assert!(calc_work_group_count([120, 68], [1920, 1080], [16, 16]).is_ok());
}

#[test]
fn work_group_count_with_size_one_and_largest_resolution() {
    assert_eq!(calc_work_group_count([u32::MAX, u32::MAX], [u32::MAX, 3], [1, 2]), Ok([u32::MAX, 2, 1]));
}

#[test]
fn work_group_size_is_limited_by_the_device() {
    assert_eq!(work_group_size([16, 16], [1024, 8]), [16, 8]);
    assert_eq!(work_group_size([32, 4], [16, 1024]), [16, 4]);
}
