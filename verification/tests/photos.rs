use memebot::bot::types::{
    BotError, CallbackData, CallbackOperation, CheckPhase, ConvertPhase, ConverterExit, DeletePhase,
    ExifInfo, FileEvent, FileType, FileWork, PhotoToUpload, Rescale, MAX_PHOTO_BYTES, MAX_PHOTO_SIDE,
    THUMBNAIL_WIDTH,
};

fn is_tmp_file(path: &str, ext: &str) -> bool {
    let uuid = &path[5..41];
    path.starts_with("/tmp/")
        && path.len() == 5 + 36 + 1 + ext.len()
        && path.ends_with(&format!(".{}", ext))
        && uuid.chars().enumerate().all(|(i, c)| {
            if i == 8 || i == 13 || i == 18 || i == 23 {
                c == '-'
            } else {
                c.is_ascii_hexdigit() && !c.is_ascii_uppercase()
            }
        })
        && uuid.as_bytes()[14] == b'4'
        && matches!(uuid.as_bytes()[19], b'8' | b'9' | b'a' | b'b')
}

#[test]
fn heic_upload_paths() {
    let p = PhotoToUpload::new(&FileType::Heic);
    assert!(is_tmp_file(p.document_path(), "heic"));
    assert!(is_tmp_file(p.photo(), "jpg"));
    assert!(is_tmp_file(p.converted(), "jpg"));
    assert!(is_tmp_file(p.thumbnail(), "jpg"));
}

#[test]
fn png_upload_keeps_png_photo() {
    let p = PhotoToUpload::new(&FileType::Png);
    assert!(is_tmp_file(p.document_path(), "png"));
    assert!(is_tmp_file(p.photo(), "png"));
    assert!(is_tmp_file(p.converted(), "jpg"));
    assert!(is_tmp_file(p.thumbnail(), "jpg"));
}

#[test]
fn upload_files_get_fresh_names() {
    let p = PhotoToUpload::new(&FileType::Jpeg);
    let q = PhotoToUpload::new(&FileType::Jpeg);
    assert_ne!(p.photo(), q.photo());
    assert_ne!(p.document_path(), p.converted());
}

#[test]
fn exif_lines_with_camera_and_shot() {
    let p = PhotoToUpload::new(&FileType::Jpeg);
    let lines = p.get_exif_info(Some(ExifInfo {
        maker_model: Some(String::from("Apple iPhone 12")),
        photo_info: Some(String::from("f/1.6 1/120s ISO 32")),
    }));
    assert_eq!(
        lines,
        vec![
            String::from("📸 Снято на: Apple iPhone 12"),
            String::from("ℹ️ f/1.6 1/120s ISO 32"),
            String::new()
        ]
    );
}

#[test]
fn exif_lines_with_shot_only() {
    let p = PhotoToUpload::new(&FileType::Jpeg);
    let lines = p.get_exif_info(Some(ExifInfo { maker_model: None, photo_info: Some(String::from("f/2")) }));
    assert_eq!(lines, vec![String::from("ℹ️ f/2"), String::new()]);
}

#[test]
fn exif_lines_empty_without_data() {
    let p = PhotoToUpload::new(&FileType::Jpeg);
    assert!(p.get_exif_info(Some(ExifInfo { maker_model: None, photo_info: None })).is_empty());
    assert!(p.get_exif_info(None).is_empty());
}

#[test]
fn converting_a_missing_document_fails() {
    let p = PhotoToUpload::new(&FileType::Heic);
    let (phase, work) = p.convert(ConvertPhase::Start, FileEvent::Begin);
    assert_eq!(phase, ConvertPhase::CheckingDocument);
    assert!(matches!(work, FileWork::CheckExists { ref path } if path == p.document_path()));
    let (phase, work) = p.convert(phase, FileEvent::Exists(false));
    assert_eq!(phase, ConvertPhase::Done);
    match work {
        FileWork::Finished(Err(BotError::FileNotExists(message))) => {
            assert_eq!(message, format!("File {} not exists!", p.document_path()))
        }
        other => panic!("unexpected {:?}", other),
    }
}

#[test]
fn converting_heic_runs_the_converter_then_copies() {
    let p = PhotoToUpload::new(&FileType::Heic);
    let (phase, _) = p.convert(ConvertPhase::Start, FileEvent::Begin);
    let (phase, work) = p.convert(phase, FileEvent::Exists(true));
    assert_eq!(phase, ConvertPhase::Converting);
    assert!(matches!(work, FileWork::ConvertHeif { ref from, ref to }
        if from == p.document_path() && to == p.photo()));
    let exit = ConverterExit { success: true, status: String::from("exit status: 0") };
    let (phase, work) = p.convert(phase, FileEvent::Converted(Some(exit)));
    assert_eq!(phase, ConvertPhase::CopyingConverted);
    assert!(matches!(work, FileWork::Copy { ref from, ref to } if from == p.photo() && to == p.converted()));
    let (phase, work) = p.convert(phase, FileEvent::Copied);
    assert_eq!(phase, ConvertPhase::Done);
    assert!(matches!(work, FileWork::Finished(Ok(()))));
}

#[test]
fn failed_heic_conversion_is_reported() {
    let p = PhotoToUpload::new(&FileType::Heic);
    let exit = ConverterExit { success: false, status: String::from("exit status: 1") };
    let (phase, work) = p.convert(ConvertPhase::Converting, FileEvent::Converted(Some(exit)));
    assert_eq!(phase, ConvertPhase::Done);
    match work {
        FileWork::Finished(Err(BotError::ConvertingFailed(message))) => {
            assert_eq!(message, "Converting failed: exit status: 1")
        }
        other => panic!("unexpected {:?}", other),
    }
}

#[test]
fn converter_that_cannot_run_ends_quietly() {
    let p = PhotoToUpload::new(&FileType::Heic);
    let (phase, work) = p.convert(ConvertPhase::Converting, FileEvent::Converted(None));
    assert_eq!(phase, ConvertPhase::Done);
    assert!(matches!(work, FileWork::Finished(Ok(()))));
}

#[test]
fn converting_other_documents_copies_twice() {
    let p = PhotoToUpload::new(&FileType::Png);
    let (phase, _) = p.convert(ConvertPhase::Start, FileEvent::Begin);
    let (phase, work) = p.convert(phase, FileEvent::Exists(true));
    assert_eq!(phase, ConvertPhase::CopyingPhoto);
    assert!(matches!(work, FileWork::Copy { ref from, ref to } if from == p.document_path() && to == p.photo()));
    let (phase, work) = p.convert(phase, FileEvent::Copied);
    assert_eq!(phase, ConvertPhase::CopyingJpeg);
    assert!(matches!(work, FileWork::Copy { ref from, ref to }
        if from == p.document_path() && to == p.converted()));
    let (phase, work) = p.convert(phase, FileEvent::Copied);
    assert_eq!(phase, ConvertPhase::Done);
    assert!(matches!(work, FileWork::Finished(Ok(()))));
}

#[test]
fn check_reports_unreadable_size() {
    let p = PhotoToUpload::new(&FileType::Jpeg);
    let (phase, work) = p.check(CheckPhase::Start, FileEvent::Begin);
    assert_eq!(phase, CheckPhase::ReadingSize);
    assert!(matches!(work, FileWork::ReadSize { ref path } if path == p.photo()));
    let (phase, work) = p.check(phase, FileEvent::Size(Err(String::from("No such file"))));
    assert_eq!(phase, CheckPhase::Done);
    match work {
        FileWork::Finished(Err(BotError::GetMetadataFailed(message))) => {
            assert_eq!(message, "Get metadata failed: No such file")
        }
        other => panic!("unexpected {:?}", other),
    }
}

#[test]
fn check_shrinks_large_files_and_fits_large_images() {
    let p = PhotoToUpload::new(&FileType::Jpeg);
    assert_eq!(MAX_PHOTO_BYTES, 10 * 1024 * 1024);
    let (phase, work) = p.check(CheckPhase::ReadingSize, FileEvent::Size(Ok(MAX_PHOTO_BYTES + 1)));
    assert_eq!(phase, CheckPhase::ShrinkingFile);
    assert!(matches!(work, FileWork::Rescale { scale: Rescale::Half, ref path } if path == p.photo()));
    let (phase, work) = p.check(phase, FileEvent::Rescaled(false));
    assert_eq!(phase, CheckPhase::ReadingDimensions);
    assert!(matches!(work, FileWork::ReadDimensions));
    let (phase, work) = p.check(phase, FileEvent::Dimensions(100, 4001));
    assert_eq!(phase, CheckPhase::FittingDimensions);
    assert!(matches!(work, FileWork::Rescale { scale: Rescale::FitWithin(4000), ref path } if path == p.photo()));
    let (phase, work) = p.check(phase, FileEvent::Rescaled(true));
    assert_eq!(phase, CheckPhase::Done);
    assert!(matches!(work, FileWork::Finished(Ok(()))));
}

#[test]
fn check_leaves_small_photos_alone() {
    let p = PhotoToUpload::new(&FileType::Jpeg);
    let (phase, work) = p.check(CheckPhase::ReadingSize, FileEvent::Size(Ok(MAX_PHOTO_BYTES)));
    assert_eq!(phase, CheckPhase::ReadingDimensions);
    assert!(matches!(work, FileWork::ReadDimensions));
    let (phase, work) = p.check(phase, FileEvent::Dimensions(MAX_PHOTO_SIDE, MAX_PHOTO_SIDE));
    assert_eq!(phase, CheckPhase::Done);
    assert!(matches!(work, FileWork::Finished(Ok(()))));
}

#[test]
fn delete_all_removes_every_file_in_order() {
    let p = PhotoToUpload::new(&FileType::Heic);
    let order = [p.document_path().to_string(), p.photo().to_string(), p.converted().to_string(), p.thumbnail().to_string()];
    let (mut phase, mut work) = p.delete_all(DeletePhase::Start, FileEvent::Begin);
    for expected in order.iter() {
        match work {
            FileWork::Remove { ref path } => assert_eq!(path, expected),
            ref other => panic!("unexpected {:?}", other),
        }
        let next = p.delete_all(phase, FileEvent::Removed(true));
        phase = next.0;
        work = next.1;
    }
    assert_eq!(phase, DeletePhase::Done);
    assert!(matches!(work, FileWork::Deleted(true)));
}

#[test]
fn delete_all_stops_at_the_first_failure() {
    let p = PhotoToUpload::new(&FileType::Heic);
    let (phase, _) = p.delete_all(DeletePhase::Start, FileEvent::Begin);
    let (phase, work) = p.delete_all(phase, FileEvent::Removed(true));
    assert!(matches!(work, FileWork::Remove { ref path } if path == p.photo()));
    let (phase, work) = p.delete_all(phase, FileEvent::Removed(false));
    assert_eq!(phase, DeletePhase::Done);
    assert!(matches!(work, FileWork::Deleted(false)));
}

#[test]
fn thumbnail_width_is_fixed() {
    assert_eq!(THUMBNAIL_WIDTH, 320);
}

#[test]
fn callback_data_new_names_no_photo() {
    let data = CallbackData::new(CallbackOperation::Approve);
    assert_eq!(data, CallbackData { operation: CallbackOperation::Approve, document: None });
}

#[test]
fn file_steps_take_only_the_answer_to_their_work() {
    assert!(PhotoToUpload::convert_can_take(ConvertPhase::Start, &FileEvent::Begin));
    assert!(PhotoToUpload::convert_can_take(ConvertPhase::CheckingDocument, &FileEvent::Exists(false)));
    assert!(!PhotoToUpload::convert_can_take(ConvertPhase::Converting, &FileEvent::Copied));
    assert!(!PhotoToUpload::convert_can_take(ConvertPhase::Done, &FileEvent::Copied));
    assert!(PhotoToUpload::check_can_take(CheckPhase::ReadingSize, &FileEvent::Size(Ok(3))));
    assert!(!PhotoToUpload::check_can_take(CheckPhase::ReadingDimensions, &FileEvent::Rescaled(true)));
    assert!(PhotoToUpload::delete_can_take(DeletePhase::Removing(3), &FileEvent::Removed(true)));
    assert!(!PhotoToUpload::delete_can_take(DeletePhase::Removing(4), &FileEvent::Removed(true)));
    assert!(!PhotoToUpload::delete_can_take(DeletePhase::Start, &FileEvent::Removed(true)));
}
