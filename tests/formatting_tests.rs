use jenkins_cli::formatting::format_job_color;
use jenkins_cli::formatting::format_job_color as format_color;

#[test]
fn test_format_job_color() {
    assert_eq!(format_job_color(Some("blue")), "Success");
    assert_eq!(format_job_color(Some("red")), "Failed");
    assert_eq!(format_job_color(Some("yellow")), "Unstable");
    assert_eq!(format_job_color(Some("aborted")), "Aborted");
    assert_eq!(format_job_color(Some("notbuilt")), "Not Built");
    assert_eq!(format_job_color(Some("disabled")), "Disabled");
    assert_eq!(format_job_color(Some("blue_anime")), "Building (blue)");
    assert_eq!(format_job_color(Some("red_anime")), "Building (red)");
    assert_eq!(format_job_color(None), "Unknown");
}

#[test]
fn test_format_color() {
    assert_eq!(format_color(Some("blue")), "Success");
    assert_eq!(format_color(Some("red")), "Failed");
    assert_eq!(format_color(Some("yellow")), "Unstable");
    assert_eq!(format_color(Some("aborted")), "Aborted");
    assert_eq!(format_color(Some("notbuilt")), "Not Built");
    assert_eq!(format_color(Some("disabled")), "Disabled");
    assert_eq!(format_color(Some("blue_anime")), "Building (blue)");
    assert_eq!(format_color(Some("unknown")), "unknown");
    assert_eq!(format_color(None), "Unknown");
}

#[test]
fn test_format_color_all_anime_variants() {
    assert_eq!(format_color(Some("red_anime")), "Building (red)");
    assert_eq!(format_color(Some("yellow_anime")), "Building (yellow)");
    assert_eq!(format_color(Some("aborted_anime")), "Building (aborted)");
}

#[test]
fn test_format_color_edge_cases() {
    assert_eq!(format_color(Some("")), "");
    assert_eq!(format_color(Some("BLUE")), "BLUE");
    assert_eq!(format_color(Some("Blue")), "Blue");
}

#[test]
fn test_format_color_anime_suffix() {
    let color = "blue_anime";
    assert!(color.ends_with("_anime"));
    let trimmed = color.trim_end_matches("_anime");
    assert_eq!(trimmed, "blue");
    assert_eq!(format_color(Some(color)), format!("Building ({})", trimmed));
}

#[test]
fn test_format_color_all_standard_states() {
    let states = vec![
        ("blue", "Success"),
        ("red", "Failed"),
        ("yellow", "Unstable"),
        ("aborted", "Aborted"),
        ("notbuilt", "Not Built"),
        ("disabled", "Disabled"),
    ];

    for (input, expected) in states {
        assert_eq!(format_color(Some(input)), expected, "Failed for state: {}", input);
    }
}

#[test]
fn anime_suffix_is_removed_repeatedly_and_alone_reads_empty() {
    assert_eq!(format_color(Some("blue_anime_anime")), "Building (blue)");
    assert_eq!(format_color(Some("_anime")), "Building ()");
    assert_eq!(format_color(Some("anime")), "anime");
}

#[test]
fn status_labels_of_the_property_list() {
    assert_eq!(format_color(Some("blue")), "Success");
    assert_eq!(format_color(Some("red")), "Failed");
    assert_eq!(format_color(Some("yellow")), "Unstable");
    assert_eq!(format_color(Some("notbuilt")), "Not Built");
    assert_eq!(format_color(Some("blue_anime")), "Building (blue)");
    assert_eq!(format_color(None), "Unknown");
}
