use mawaku::image::{
    absolute_directory, extension_from_mime, image_file_name, image_target, resolve_output_dir,
    save_base64_image, wants_application_dir, ApplicationDir,
    DecodeFailure, ImageSaveError, SaveImageOptions,
};

#[test]
fn saves_image_to_specified_directory() {
    let dir = "/tmp/mawaku-image-test";
    let options = SaveImageOptions {
        file_stem: Some("custom-name"),
        mime_type: Some("image/png"),
        output_dir: Some(dir),
    };

    let file = save_base64_image("aGVsbG8=", &options, &ApplicationDir::NoParent, "/work", 0)
        .expect("save image succeeds");
    assert_eq!(
        std::path::Path::new(&file.path),
        std::path::Path::new(dir).join("custom-name.png")
    );
    assert_eq!(file.directory, dir);
    assert_eq!(file.file_name, "custom-name.png");
    assert_eq!(file.bytes, b"hello");
}

#[test]
fn default_output_directory_uses_application_path() {
    let options = SaveImageOptions {
        file_stem: Some("mawaku-test-default"),
        mime_type: Some("image/png"),
        output_dir: None,
    };

    let file = save_base64_image(
        "aGVsbG8=",
        &options,
        &ApplicationDir::Found("/opt/mawaku/bin"),
        "/work",
        0,
    )
    .expect("save image with default directory");
    assert_eq!(
        std::path::Path::new(&file.path).parent(),
        Some(std::path::Path::new("/opt/mawaku/bin"))
    );
    assert_eq!(file.directory, "/opt/mawaku/bin");
    assert_eq!(file.file_name, "mawaku-test-default.png");
}

#[test]
fn empty_payload_is_rejected() {
    let error = save_base64_image(
        "",
        &SaveImageOptions::default(),
        &ApplicationDir::NoParent,
        "/work",
        0,
    )
    .expect_err("empty payload");
    assert!(matches!(error, ImageSaveError::EmptyPayload));
}

#[test]
fn blank_payload_is_rejected_whatever_the_options() {
    let options = SaveImageOptions {
        file_stem: Some("x"),
        mime_type: Some("image/png"),
        output_dir: Some("/tmp"),
    };
    for payload in ["", " ", "\n\t  ", "\u{a0}"] {
        for application_dir in [
            ApplicationDir::Found("/bin"),
            ApplicationDir::NoParent,
            ApplicationDir::Unknown("denied"),
        ] {
            assert!(matches!(
                save_base64_image(payload, &options, &application_dir, "/work", 5),
                Err(ImageSaveError::EmptyPayload)
            ));
            assert!(matches!(
                save_base64_image(
                    payload,
                    &SaveImageOptions::default(),
                    &application_dir,
                    "",
                    5
                ),
                Err(ImageSaveError::EmptyPayload)
            ));
        }
    }
}

#[test]
fn hello_is_decoded_for_x_png() {
    let options = SaveImageOptions {
        file_stem: Some("x"),
        mime_type: Some("image/png"),
        output_dir: Some("/data/out"),
    };
    let file = save_base64_image("aGVsbG8=", &options, &ApplicationDir::NoParent, "/work", 1)
        .expect("payload is valid");
    assert_eq!(file.directory, "/data/out");
    assert_eq!(file.path, "/data/out/x.png");
    assert_eq!(file.file_name, "x.png");
    assert_eq!(file.bytes, vec![b'h', b'e', b'l', b'l', b'o']);
}

#[test]
fn missing_stem_gives_a_name_from_the_clock() {
    let options = SaveImageOptions {
        file_stem: None,
        mime_type: Some("image/webp"),
        output_dir: Some("out"),
    };
    let file = save_base64_image(
        "AA==",
        &options,
        &ApplicationDir::NoParent,
        "/work",
        1_700_000_000_123,
    )
    .expect("payload is valid");
    assert_eq!(file.directory, "/work/out");
    assert_eq!(file.path, "/work/out/mawaku-image-1700000000123.webp");
    assert_eq!(file.file_name, "mawaku-image-1700000000123.webp");
    assert_eq!(file.bytes, vec![0u8]);
    assert_eq!(image_file_name(None, "png", 0), "mawaku-image-0.png");
    assert_eq!(
        image_file_name(None, "bin", u128::MAX),
        "mawaku-image-340282366920938463463374607431768211455.bin"
    );
    assert_eq!(image_file_name(Some("a.b"), "gif", 9), "a.b.gif");
}

#[test]
fn extension_follows_the_mime_type() {
    assert_eq!(extension_from_mime(Some("image/jpeg")), "jpg");
    assert_eq!(extension_from_mime(Some("image/jpg")), "jpg");
    assert_eq!(extension_from_mime(Some("IMAGE/JPEG")), "jpg");
    assert_eq!(extension_from_mime(Some("image/webp")), "webp");
    assert_eq!(extension_from_mime(Some("Image/Gif")), "gif");
    assert_eq!(extension_from_mime(Some("image/png")), "png");
    assert_eq!(extension_from_mime(None), "png");
    assert_eq!(extension_from_mime(Some("image/tiff")), "bin");
    assert_eq!(extension_from_mime(Some("")), "bin");
    assert_eq!(extension_from_mime(Some(" image/png")), "bin");
}

#[test]
fn directory_is_the_given_one_or_the_programs() {
    assert_eq!(
        resolve_output_dir(Some("a/b"), &ApplicationDir::Unknown("x")).expect("given"),
        "a/b"
    );
    assert_eq!(
        resolve_output_dir(None, &ApplicationDir::Found("/usr/bin")).expect("found"),
        "/usr/bin"
    );
    assert!(matches!(
        resolve_output_dir(None, &ApplicationDir::NoParent),
        Err(ImageSaveError::InvalidApplicationDirectory)
    ));
    match resolve_output_dir(None, &ApplicationDir::Unknown("permission denied")) {
        Err(ImageSaveError::ResolveApplicationDirectory(cause)) => {
            assert_eq!(cause, "permission denied")
        }
        other => panic!("unexpected outcome {other:?}"),
    }
}

#[test]
fn directory_errors_come_before_decoding() {
    let options = SaveImageOptions::default();
    assert!(matches!(
        save_base64_image("!!!", &options, &ApplicationDir::NoParent, "/work", 0),
        Err(ImageSaveError::InvalidApplicationDirectory)
    ));
    assert!(matches!(
        save_base64_image("!!!", &options, &ApplicationDir::Unknown("gone"), "/work", 0),
        Err(ImageSaveError::ResolveApplicationDirectory(_))
    ));
}

#[test]
fn invalid_payloads_are_decode_errors() {
    let options = SaveImageOptions {
        file_stem: Some("x"),
        mime_type: None,
        output_dir: Some("out"),
    };
    let failure = |payload: &str| match save_base64_image(
        payload,
        &options,
        &ApplicationDir::NoParent,
        "/work",
        0,
    ) {
        Err(ImageSaveError::Decode(failure)) => failure,
        other => panic!("unexpected outcome {other:?}"),
    };
    assert_eq!(failure("aGVs!G8="), DecodeFailure::InvalidByte(4, b'!'));
    assert_eq!(failure("aGVsbG8"), DecodeFailure::InvalidPadding);
    assert_eq!(failure("aGVsbG9="), DecodeFailure::InvalidLastSymbol(6, b'9'));
    assert!(matches!(failure("aGVsb"), DecodeFailure::InvalidLength(_)));
    assert!(matches!(failure(" aGVsbG8="), DecodeFailure::InvalidByte(0, b' ')));
}

#[test]
fn image_errors_say_what_went_wrong() {
    assert_eq!(ImageSaveError::EmptyPayload.message(), "image payload is empty");
    assert_eq!(
        ImageSaveError::Decode(DecodeFailure::InvalidPadding).message(),
        "failed to decode image bytes"
    );
    assert_eq!(
        ImageSaveError::ResolveApplicationDirectory("no exe".to_string()).message(),
        "failed to resolve application directory: no exe"
    );
    assert_eq!(
        ImageSaveError::InvalidApplicationDirectory.message(),
        "application directory has no parent directory"
    );
    assert_eq!(
        ImageSaveError::Io {
            path: "/tmp/x.png".to_string(),
            source: "disk full".to_string()
        }
        .message(),
        "failed to write image to /tmp/x.png"
    );
}

#[test]
fn relative_directory_starts_from_the_current_directory() {
    let options = SaveImageOptions {
        file_stem: Some("x"),
        mime_type: None,
        output_dir: Some("out"),
    };
    let file = save_base64_image("aGVsbG8=", &options, &ApplicationDir::NoParent, "/work", 0)
        .expect("payload is valid");
    assert_eq!(file.directory, "/work/out");
    assert_eq!(file.file_name, "x.png");
    assert_eq!(file.path, "/work/out/x.png");
    assert!(std::path::Path::new(&file.path).is_absolute());
    assert_eq!(file.bytes, b"hello");

    assert_eq!(absolute_directory("out", "/work/"), "/work/out");
    assert_eq!(absolute_directory("/data", "/work"), "/data");
    assert_eq!(absolute_directory("a/b", ""), "a/b");
}

#[test]
fn paths_that_are_not_absolute_are_io_errors() {
    let options = SaveImageOptions {
        file_stem: Some("x"),
        mime_type: None,
        output_dir: Some("out"),
    };
    for current_dir in ["", "relative"] {
        match save_base64_image("!!!", &options, &ApplicationDir::NoParent, current_dir, 0) {
            Err(ImageSaveError::Io { path, source }) => {
                assert_eq!(
                    std::path::Path::new(&path),
                    std::path::Path::new(current_dir).join("out")
                );
                assert_eq!(source, "the path is not absolute");
            }
            other => panic!("unexpected outcome {other:?}"),
        }
    }
    let target = image_target("/data", "/work", "shot.png".to_string()).expect("absolute");
    assert_eq!(target.directory, "/data");
    assert_eq!(target.file_name, "shot.png");
    assert_eq!(target.path, "/data/shot.png");
    let replaced = image_target("/data", "/work", "/etc/shot.png".to_string()).expect("absolute");
    assert_eq!(replaced.path, "/etc/shot.png");
}

#[test]
fn the_programs_path_is_wanted_only_without_a_directory() {
    let named = SaveImageOptions {
        file_stem: None,
        mime_type: None,
        output_dir: Some("/data"),
    };
    assert!(wants_application_dir("aGVsbG8=", &SaveImageOptions::default()));
    assert!(!wants_application_dir("aGVsbG8=", &named));
    assert!(!wants_application_dir("", &SaveImageOptions::default()));
    assert!(!wants_application_dir(" \n", &SaveImageOptions::default()));
}
