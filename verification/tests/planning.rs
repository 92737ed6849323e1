//! Directory plans, the base sweep, and run outcomes.

use webp_to_png::errors::AppError;
use webp_to_png::plan::{all_succeeded, first_error, plan_directory, plan_sweep};

fn strings(names: &[&str]) -> Vec<String> {
    names.iter().map(|n| n.to_string()).collect()
}

#[test]
fn plan_buckets_every_file_in_listing_order() {
    let files = strings(&[
        "a1.webp",
        "bad name.webp",
        "photo.png",
        "b2.webp",
        "notes.txt",
        "c3.png",
    ]);
    let plan = plan_directory(&files);
    assert_eq!(plan.convert, strings(&["a1.webp", "b2.webp"]));
    assert_eq!(plan.skip, strings(&["photo.png", "c3.png"]));
    assert_eq!(plan.delete, strings(&["bad name.webp", "notes.txt"]));
}

#[test]
fn plan_of_empty_listing_is_empty() {
    let files: Vec<String> = Vec::new();
    let plan = plan_directory(&files);
    assert!(plan.convert.is_empty());
    assert!(plan.skip.is_empty());
    assert!(plan.delete.is_empty());
}

#[test]
fn bad_webp_name_is_deleted_never_converted_and_png_is_kept() {
    let files = strings(&["bad name.webp", "photo.png"]);
    let plan = plan_directory(&files);
    assert_eq!(plan.delete, strings(&["bad name.webp"]));
    assert_eq!(plan.skip, strings(&["photo.png"]));
    assert!(plan.convert.is_empty());
}

#[test]
fn sweep_deletes_exactly_the_non_canonical_files() {
    let files = strings(&["notes.txt", "a1.webp", "done.png", "b2.webp"]);
    let deletions = plan_sweep(&files);
    assert_eq!(deletions, strings(&["notes.txt", "done.png"]));
}

#[test]
fn sweeping_twice_deletes_nothing_the_second_time() {
    let files = strings(&["notes.txt", "a1.webp", "done.png", "b2.webp"]);
    let deletions = plan_sweep(&files);
    let survivors: Vec<String> =
        files.iter().filter(|f| !deletions.contains(f)).cloned().collect();
    assert_eq!(survivors, strings(&["a1.webp", "b2.webp"]));
    let second = plan_sweep(&survivors);
    assert!(second.is_empty());
}

#[test]
fn first_error_is_none_when_all_units_succeed() {
    let results: Vec<Result<(), AppError>> = vec![Ok(()), Ok(()), Ok(())];
    assert_eq!(first_error(&results), None);
    assert!(all_succeeded(&results));
}

#[test]
fn first_error_reports_the_earliest_failure() {
    let results: Vec<Result<(), AppError>> = vec![
        Ok(()),
        Err(AppError::Image("corrupt".to_string())),
        Err(AppError::Io("missing".to_string())),
    ];
    assert_eq!(first_error(&results), Some(1));
    assert!(!all_succeeded(&results));
}

#[test]
fn empty_run_counts_as_success() {
    let results: Vec<Result<(), AppError>> = Vec::new();
    assert!(all_succeeded(&results));
}

#[test]
fn error_kinds_are_distinguished() {
    let io = AppError::Io("disk full".to_string());
    let image = AppError::Image("truncated".to_string());
    assert!(io.is_io() && !io.is_image());
    assert!(image.is_image() && !image.is_io());
    assert_eq!(io.message().as_str(), "disk full");
    assert_eq!(image.message().as_str(), "truncated");
}
