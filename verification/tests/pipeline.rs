//! The per-request pieces around resolution: payload decoding, request
//! validation, the scratch workspace, the invocation plan, and extraction
//! of the engine's outcome.

use ocr_core::decode::decode_image;
use ocr_core::error::OcrError;
use ocr_core::extract::extract_result;
use ocr_core::invoke::engine_args;
use ocr_core::invoke::output_file_path;
use ocr_core::invoke::plan_invocation;
use ocr_core::invoke::EngineOutcome;
use ocr_core::mode::OutputMode;
use ocr_core::request::OcrRequest;
use ocr_core::resolve::ResolvedEnvironment;
use ocr_core::text::trim_ascii;
use ocr_core::workspace::ScratchWorkspace;

const TSV_HEADER: &str =
    "level page_num block_num par_num line_num word_num left top width height conf text";

#[test]
fn decode_accepts_valid_base64() {
    assert_eq!(decode_image("aGk="), Ok(vec![b'h', b'i']));
}

#[test]
fn decode_accepts_empty_payload() {
    assert_eq!(decode_image(""), Ok(Vec::new()));
}

#[test]
fn decode_rejects_invalid_base64() {
    let r = decode_image("%%%not base64%%%");
    assert!(matches!(r, Err(OcrError::DecodeError(_))));
}

#[test]
fn request_defaults_language_to_eng() {
    let q = OcrRequest::new(vec![1, 2, 3], None, OutputMode::Text).expect("valid request");
    assert_eq!(q.language, "eng");
    assert_eq!(q.image_bytes, vec![1, 2, 3]);
    assert_eq!(q.mode, OutputMode::Text);
}

#[test]
fn request_keeps_an_explicit_language() {
    let q = OcrRequest::new(vec![1], Some(String::from("fra")), OutputMode::Tsv)
        .expect("valid request");
    assert_eq!(q.language, "fra");
    assert_eq!(q.mode, OutputMode::Tsv);
}

#[test]
fn request_rejects_empty_image_bytes() {
    let r = OcrRequest::new(Vec::new(), None, OutputMode::Text);
    assert!(matches!(r, Err(OcrError::DecodeError(_))));
}

#[test]
fn request_rejects_an_empty_language() {
    let r = OcrRequest::new(vec![1], Some(String::new()), OutputMode::Text);
    assert_eq!(r.map(|_| ()), Err(OcrError::DataNotFound(String::new())));
}

#[test]
fn mode_keywords_and_extensions() {
    assert_eq!(OutputMode::Text.keyword(), "txt");
    assert_eq!(OutputMode::Tsv.keyword(), "tsv");
    assert_eq!(OutputMode::Text.extension(), ".txt");
    assert_eq!(OutputMode::Tsv.extension(), ".tsv");
}

#[test]
fn error_messages_are_exact() {
    assert_eq!(
        OcrError::EngineNotFound.message(),
        "Bundled tesseract not found and no system tesseract available"
    );
    assert_eq!(
        OcrError::DataNotFound(String::from("fra")).message(),
        "No tessdata directory contains fra.traineddata"
    );
    assert_eq!(
        OcrError::EngineFailed(String::from("boom")).message(),
        "Tesseract failed: boom"
    );
    assert_eq!(
        OcrError::LaunchError(String::from("denied")).message(),
        "Failed to launch tesseract: denied"
    );
}

#[test]
fn trim_removes_surrounding_ascii_whitespace() {
    assert_eq!(trim_ascii(&b" \t\r\n hi there \n".to_vec()), b"hi there".to_vec());
    assert_eq!(trim_ascii(&b" \t \n ".to_vec()), Vec::<u8>::new());
    assert_eq!(trim_ascii(&Vec::new()), Vec::<u8>::new());
}

#[test]
fn engine_args_are_exact() {
    let args = engine_args("/w/input.png", "/w/output", "eng", OutputMode::Text);
    let expected =
        vec!["/w/input.png", "/w/output", "-l", "eng", "--dpi", "300", "txt"];
    assert_eq!(args, expected);
}

#[test]
fn output_file_appends_the_mode_extension() {
    assert_eq!(output_file_path("/w/output", OutputMode::Text), "/w/output.txt");
    assert_eq!(output_file_path("/w/output", OutputMode::Tsv), "/w/output.tsv");
}

#[test]
fn extraction_surfaces_trimmed_stderr_on_failure() {
    let outcome = EngineOutcome {
        exit_success: false,
        stdout: Vec::new(),
        stderr: b"Error, Unsupported image format\n".to_vec(),
    };
    let r = extract_result(&outcome, None);
    assert_eq!(
        r,
        Err(OcrError::EngineFailed(String::from("Error, Unsupported image format")))
    );
}

#[test]
fn extraction_returns_empty_text_as_success() {
    let outcome = EngineOutcome { exit_success: true, stdout: Vec::new(), stderr: Vec::new() };
    assert_eq!(extract_result(&outcome, Some(String::new())), Ok(String::new()));
}

#[test]
fn extraction_reports_a_missing_output_file() {
    let outcome = EngineOutcome { exit_success: true, stdout: Vec::new(), stderr: Vec::new() };
    assert_eq!(extract_result(&outcome, None), Err(OcrError::OutputMissing));
}

#[test]
fn extraction_passes_the_tsv_table_through() {
    let table = format!("{}\n1\t1\t0\t0\t0\t0\t0\t0\t640\t480\t-1\t\n", TSV_HEADER);
    let outcome = EngineOutcome { exit_success: true, stdout: Vec::new(), stderr: Vec::new() };
    let r = extract_result(&outcome, Some(table.clone())).expect("success with output");
    assert!(r.starts_with(TSV_HEADER));
    assert_eq!(r, table);
}

#[test]
fn workspace_paths_live_inside_its_directory() {
    let mut ws = ScratchWorkspace::create().expect("workspace");
    assert_eq!(ws.input_path, format!("{}/input.png", ws.dir));
    assert_eq!(ws.output_prefix, format!("{}/output", ws.dir));
    assert!(std::path::Path::new(&ws.dir).is_dir());
    ws.destroy();
}

#[test]
fn workspace_cleanup_is_idempotent() {
    let mut ws = ScratchWorkspace::create().expect("workspace");
    let dir = ws.dir.clone();
    ws.destroy();
    assert!(!std::path::Path::new(&dir).exists());
    ws.destroy();
    assert_eq!(ws.dir, dir);
}

#[test]
fn workspaces_do_not_collide() {
    let mut a = ScratchWorkspace::create().expect("workspace");
    let mut b = ScratchWorkspace::create().expect("workspace");
    assert_ne!(a.dir, b.dir);
    assert_ne!(a.input_path, b.input_path);
    assert_ne!(a.output_prefix, b.output_prefix);
    a.destroy();
    assert!(!std::path::Path::new(&a.dir).exists());
    assert!(std::path::Path::new(&b.dir).is_dir());
    b.destroy();
    assert!(!std::path::Path::new(&b.dir).exists());
}

#[test]
fn invocation_plan_carries_the_resolved_environment() {
    let env = ResolvedEnvironment {
        engine_path: String::from("/bin/tesseract"),
        data_prefix: String::from("/data/tessdata"),
        language: String::from("eng"),
    };
    let mut ws = ScratchWorkspace::create().expect("workspace");
    let plan = plan_invocation(&env, &ws, OutputMode::Tsv);
    assert_eq!(plan.program, "/bin/tesseract");
    assert_eq!(plan.env_var, "TESSDATA_PREFIX");
    assert_eq!(plan.env_value, "/data/tessdata");
    let expected_args = vec![
        ws.input_path.clone(),
        ws.output_prefix.clone(),
        String::from("-l"),
        String::from("eng"),
        String::from("--dpi"),
        String::from("300"),
        String::from("tsv"),
    ];
    assert_eq!(plan.args, expected_args);
    assert_eq!(plan.output_file, format!("{}.tsv", ws.output_prefix));
    ws.destroy();
}
