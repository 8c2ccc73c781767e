use raytracer::job::{RenderError, RenderJob};

#[test]
fn job_accepts_valid_parameters() {
    let job = RenderJob::new(900, 600, 10, 50).unwrap();
    assert_eq!(job.width(), 900);
    assert_eq!(job.height(), 600);
    assert_eq!(job.samples_per_pixel(), 10);
    assert_eq!(job.max_depth(), 50);
    assert_eq!(job.pixel_count(), 540_000);
}

#[test]
fn job_accepts_zero_depth() {
    let job = RenderJob::new(2, 1, 1, 0).unwrap();
    assert_eq!(job.max_depth(), 0);
    assert_eq!(job.pixel_count(), 2);
}

#[test]
fn job_refuses_empty_image() {
    assert_eq!(RenderJob::new(0, 5, 1, 1).unwrap_err(), RenderError::EmptyImage);
    assert_eq!(RenderJob::new(5, 0, 0, 1).unwrap_err(), RenderError::EmptyImage);
}

#[test]
fn job_refuses_zero_samples() {
    assert_eq!(RenderJob::new(4, 4, 0, 1).unwrap_err(), RenderError::NoSamples);
}

#[test]
fn job_refuses_oversized_image() {
    assert_eq!(RenderJob::new(usize::MAX, 2, 1, 1).unwrap_err(), RenderError::TooLarge);
    assert_eq!(RenderJob::new(usize::MAX / 3 + 1, 1, 1, 1).unwrap_err(), RenderError::TooLarge);
}

#[test]
fn span_values() {
    assert_eq!(RenderJob::span(900), 899);
    assert_eq!(RenderJob::span(2), 1);
    assert_eq!(RenderJob::span(1), 1);
}
