use print_jobs::errors::PrintError;
use print_jobs::media::detect_media_type;
use print_jobs::naming::make_bytes_descriptor;
use print_jobs::options::PrinterJobOptions;
use print_jobs::policy::should_simulate_printing;
use print_jobs::registry::PrinterCore;
use print_jobs::state::PrinterJobState;

#[test]
fn test_media_type_detection_additional() {
    assert_eq!(detect_media_type("document.pdf"), "application/pdf");
    assert_eq!(detect_media_type("script.ps"), "application/postscript");
    assert_eq!(detect_media_type("image.jpg"), "image/jpeg");
    assert_eq!(detect_media_type("image.jpeg"), "image/jpeg");
    assert_eq!(detect_media_type("image.png"), "image/png");
    assert_eq!(detect_media_type("image.gif"), "image/gif");
    assert_eq!(detect_media_type("file.txt"), "text/plain");
    assert_eq!(detect_media_type("file.text"), "text/plain");
    assert_eq!(detect_media_type("unknown.xyz"), "application/octet-stream");
    assert_eq!(detect_media_type("no_extension"), "application/octet-stream");
    assert_eq!(detect_media_type("<bytes:1024 bytes>"), "application/vnd.cups-raw");
}

#[test]
fn test_media_type_detection() {
    assert_eq!(detect_media_type("document.pdf"), "application/pdf");
    assert_eq!(detect_media_type("script.ps"), "application/postscript");
    assert_eq!(detect_media_type("image.jpg"), "image/jpeg");
    assert_eq!(detect_media_type("image.jpeg"), "image/jpeg");
    assert_eq!(detect_media_type("image.png"), "image/png");
    assert_eq!(detect_media_type("image.gif"), "image/gif");
    assert_eq!(detect_media_type("file.txt"), "text/plain");
    assert_eq!(detect_media_type("file.text"), "text/plain");
    assert_eq!(detect_media_type("unknown.xyz"), "application/octet-stream");
    assert_eq!(detect_media_type("no_extension"), "application/octet-stream");
    assert_eq!(detect_media_type("<bytes:1024 bytes>"), "application/vnd.cups-raw");
}

#[test]
fn test_media_type_detection_edge_cases() {
    // Case folding on the extension alone.
    assert_eq!(detect_media_type("REPORT.PDF"), "application/pdf");
    assert_eq!(detect_media_type("photo.JPeG"), "image/jpeg");
    // A leading dot starts a hidden file, not an extension.
    assert_eq!(detect_media_type(".bashrc"), "application/octet-stream");
    assert_eq!(detect_media_type("dir/.hidden"), "application/octet-stream");
    // A dot before the final path separator is not an extension.
    assert_eq!(detect_media_type("archive.d/file"), "application/octet-stream");
    // Only the last extension counts.
    assert_eq!(detect_media_type("notes.txt.pdf"), "application/pdf");
    // Paths with directories.
    assert_eq!(detect_media_type("/path/to/file.txt"), "text/plain");
    // An empty descriptor.
    assert_eq!(detect_media_type(""), "application/octet-stream");
}

#[test]
fn test_printer_job_state_string_conversions() {
    assert_eq!(PrinterJobState::PENDING.as_string(), "pending");
    assert_eq!(PrinterJobState::PAUSED.as_string(), "paused");
    assert_eq!(PrinterJobState::PROCESSING.as_string(), "processing");
    assert_eq!(PrinterJobState::CANCELLED.as_string(), "cancelled");
    assert_eq!(PrinterJobState::COMPLETED.as_string(), "completed");
    assert_eq!(PrinterJobState::UNKNOWN.as_string(), "unknown");
}

#[test]
fn test_printer_job_state_conversions() {
    assert_eq!(PrinterJobState::PENDING.as_string(), "pending");
    assert_eq!(PrinterJobState::PAUSED.as_string(), "paused");
    assert_eq!(PrinterJobState::PROCESSING.as_string(), "processing");
    assert_eq!(PrinterJobState::CANCELLED.as_string(), "cancelled");
    assert_eq!(PrinterJobState::COMPLETED.as_string(), "completed");
    assert_eq!(PrinterJobState::UNKNOWN.as_string(), "unknown");
}

#[test]
fn test_print_error_codes() {
    assert_eq!(PrintError::InvalidParams.as_i32(), 1);
    assert_eq!(PrintError::InvalidPrinterName.as_i32(), 2);
    assert_eq!(PrintError::InvalidFilePath.as_i32(), 3);
    assert_eq!(PrintError::InvalidJson.as_i32(), 4);
    assert_eq!(PrintError::InvalidJsonEncoding.as_i32(), 5);
    assert_eq!(PrintError::PrinterNotFound.as_i32(), 6);
    assert_eq!(PrintError::FileNotFound.as_i32(), 7);
    assert_eq!(PrintError::SimulatedFailure.as_i32(), 8);
}

#[test]
fn test_error_codes() {
    assert_eq!(PrintError::InvalidParams.as_i32(), 1);
    assert_eq!(PrintError::InvalidPrinterName.as_i32(), 2);
    assert_eq!(PrintError::InvalidFilePath.as_i32(), 3);
    assert_eq!(PrintError::InvalidJson.as_i32(), 4);
    assert_eq!(PrintError::InvalidJsonEncoding.as_i32(), 5);
    assert_eq!(PrintError::PrinterNotFound.as_i32(), 6);
    assert_eq!(PrintError::FileNotFound.as_i32(), 7);
}

#[test]
fn test_job_options_creation_and_parsing() {
    // none()
    let none_options = PrinterJobOptions::none();
    assert!(none_options.name.is_none());
    assert!(none_options.raw_properties.is_empty());

    // from_map with job-name
    let properties = vec![
        ("job-name".to_string(), "Test Job".to_string()),
        ("copies".to_string(), "2".to_string()),
    ];
    let options = PrinterJobOptions::from_map(properties);
    assert_eq!(options.name, Some("Test Job".to_string()));
    assert_eq!(options.get_property("copies"), Some(&"2".to_string()));
    assert!(!options.contains_property("job-name"));

    // from_map without job-name
    let properties = vec![("copies".to_string(), "3".to_string())];
    let options = PrinterJobOptions::from_map(properties);
    assert!(options.name.is_none());
    assert_eq!(options.get_property("copies"), Some(&"3".to_string()));

    // with_name_and_properties
    let properties = vec![("quality".to_string(), "high".to_string())];
    let options = PrinterJobOptions::with_name_and_properties("Named Job".to_string(), properties);
    assert_eq!(options.name, Some("Named Job".to_string()));
    assert_eq!(options.get_property("quality"), Some(&"high".to_string()));
}

#[test]
fn test_job_options_creation() {
    // none()
    let none_options = PrinterJobOptions::none();
    assert!(none_options.name.is_none());
    assert!(none_options.raw_properties.is_empty());

    // from_map with job-name
    let properties = vec![
        ("job-name".to_string(), "Test Job".to_string()),
        ("copies".to_string(), "2".to_string()),
    ];
    let options = PrinterJobOptions::from_map(properties);
    assert_eq!(options.name, Some("Test Job".to_string()));
    assert_eq!(options.get_property("copies"), Some(&"2".to_string()));
    assert!(!options.contains_property("job-name"));

    // from_map without job-name
    let properties = vec![("copies".to_string(), "3".to_string())];
    let options = PrinterJobOptions::from_map(properties);
    assert!(options.name.is_none());
    assert_eq!(options.get_property("copies"), Some(&"3".to_string()));

    // with_name_and_properties
    let properties = vec![("quality".to_string(), "high".to_string())];
    let options = PrinterJobOptions::with_name_and_properties("Named Job".to_string(), properties);
    assert_eq!(options.name, Some("Named Job".to_string()));
    assert_eq!(options.get_property("quality"), Some(&"high".to_string()));
}

#[test]
fn test_job_options_duplicate_keys() {
    // The first entry under a key wins; duplicates stay in the list.
    let properties = vec![
        ("copies".to_string(), "1".to_string()),
        ("copies".to_string(), "9".to_string()),
    ];
    let options = PrinterJobOptions::from_map(properties);
    assert_eq!(options.get_property("copies"), Some(&"1".to_string()));
    assert_eq!(options.raw_properties.len(), 2);
}

#[test]
fn test_should_simulate_printing_when_env_var_is_true() {
    assert!(should_simulate_printing(Some("true")));
}

#[test]
fn test_should_simulate_printing_when_env_var_is_false() {
    assert!(!should_simulate_printing(Some("false")));
}

#[test]
fn test_should_simulate_printing_when_env_var_is_missing() {
    assert!(!should_simulate_printing(None));
}

#[test]
fn test_should_simulate_printing() {
    assert!(should_simulate_printing(Some("true")));
    assert!(should_simulate_printing(Some("1")));
    assert!(!should_simulate_printing(Some("false")));
    assert!(!should_simulate_printing(Some("yes")));
    assert!(!should_simulate_printing(Some("")));
    assert!(!should_simulate_printing(None));
}

#[test]
fn test_bytes_descriptor_format() {
    assert_eq!(make_bytes_descriptor(0), "<bytes:0 bytes>");
    assert_eq!(make_bytes_descriptor(15), "<bytes:15 bytes>");
    assert_eq!(make_bytes_descriptor(1024), "<bytes:1024 bytes>");
    assert_eq!(make_bytes_descriptor(1_048_576), "<bytes:1048576 bytes>");
}

#[test]
fn test_calculate_bytes_print_delay_values() {
    // Base delay alone for small payloads.
    assert_eq!(PrinterCore::calculate_bytes_print_delay(0), 2000);
    assert_eq!(PrinterCore::calculate_bytes_print_delay(1_048_576), 2000 + 1000);
    // Medium payloads get the medium bonus.
    assert_eq!(PrinterCore::calculate_bytes_print_delay(2 * 1_048_576), 2000 + 2000 + 1500);
    // Large payloads get the large bonus.
    assert_eq!(PrinterCore::calculate_bytes_print_delay(6 * 1_048_576), 2000 + 6000 + 3000);
    // The size-proportional part is capped at thirty seconds.
    assert_eq!(PrinterCore::calculate_bytes_print_delay(100 * 1_048_576), 2000 + 30000 + 3000);
}

#[test]
fn test_calculate_print_delay_values() {
    // Base delay for a small plain file.
    assert_eq!(PrinterCore::calculate_print_delay(0, "notes.bin"), 2000);
    // Image extensions add three seconds.
    assert_eq!(PrinterCore::calculate_print_delay(0, "photo.jpg"), 5000);
    assert_eq!(PrinterCore::calculate_print_delay(0, "scan.TIFF"), 5000);
    // Page-description documents add two seconds.
    assert_eq!(PrinterCore::calculate_print_delay(0, "report.pdf"), 4000);
    // Size delay is one second per whole mebibyte, capped.
    assert_eq!(PrinterCore::calculate_print_delay(3 * 1_048_576, "big.bin"), 5000);
    assert_eq!(PrinterCore::calculate_print_delay(64 * 1_048_576, "huge.bin"), 32000);
}

#[test]
fn test_job_options_clone_is_deep() {
    let options = PrinterJobOptions::with_name_and_properties(
        "Named Job".to_string(),
        vec![("quality".to_string(), "high".to_string())],
    );
    let copy = options.clone();
    assert_eq!(copy.name, Some("Named Job".to_string()));
    assert_eq!(copy.get_property("quality"), Some(&"high".to_string()));
    assert_eq!(copy.raw_properties.len(), options.raw_properties.len());
}
