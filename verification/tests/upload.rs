use eshop_auth::upload::{image_path_of, plan_upload, NewImage, UploadError};

#[test]
fn image_path_is_under_images() {
    assert_eq!(image_path_of("cat.png"), "images/cat.png");
    assert_eq!(image_path_of(""), "images/");
}

#[test]
fn upload_without_file() {
    assert_eq!(plan_upload(None), Err(UploadError::NoFile));
}

#[test]
fn upload_without_file_name() {
    assert_eq!(plan_upload(Some(None)), Err(UploadError::NoFileName));
}

#[test]
fn upload_with_file_name() {
    assert_eq!(
        plan_upload(Some(Some("cat.png".to_string()))),
        Ok((NewImage { url: "cat.png".to_string() }, "images/cat.png".to_string()))
    );
}

#[test]
fn upload_errors_are_bad_requests() {
    assert_eq!(UploadError::NoFile.status(), 400);
    assert_eq!(UploadError::NoFileName.status(), 400);
    assert_eq!(UploadError::NoFile.message(), "No file provided");
    assert_eq!(UploadError::NoFileName.message(), "No file name provided");
}
