use ffmpeg_setup::normalize::normalize_plan;

#[test]
fn exactly_the_tool_folder_is_chosen() {
    // One folder carries the tool's name among unrelated folders: exactly
    // that one is renamed, the others are untouched.
    let children = vec![
        b"docs".to_vec(),
        b"ffmpeg-1.2.3".to_vec(),
        b"misc".to_vec(),
    ];
    let plan = normalize_plan(&children, &b"ffmpeg".to_vec());
    assert_eq!(plan, Some(1));
}

#[test]
fn first_of_several_candidates_is_chosen() {
    let children = vec![
        b"ffmpeg-master-latest".to_vec(),
        b"ffmpeg-old".to_vec(),
    ];
    let plan = normalize_plan(&children, &b"ffmpeg".to_vec());
    assert_eq!(plan, Some(0));
}

#[test]
fn no_candidate_skips_normalization() {
    let children = vec![b"docs".to_vec(), b"misc".to_vec()];
    assert_eq!(normalize_plan(&children, &b"ffmpeg".to_vec()), None);
}

#[test]
fn empty_root_skips_normalization() {
    let children: Vec<Vec<u8>> = Vec::new();
    assert_eq!(normalize_plan(&children, &b"ffmpeg".to_vec()), None);
}

#[test]
fn exact_name_counts_as_prefixed() {
    let children = vec![b"ffmpeg".to_vec()];
    assert_eq!(normalize_plan(&children, &b"ffmpeg".to_vec()), Some(0));
}
