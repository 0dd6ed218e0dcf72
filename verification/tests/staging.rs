use ftp_paperless_bridge::staging::{stage, StageName, StagedFile, STAGE_BUFFER};

fn pattern(n: usize, seed: u8) -> Vec<u8> {
    let mut out = Vec::with_capacity(n);
    let mut i: usize = 0;
    while i < n {
        out.push(((i * 7 + seed as usize) % 251) as u8 + 1);
        i += 1;
    }
    out
}

#[test]
fn name_is_the_final_component() {
    assert_eq!(
        StageName::for_path("/uploads/2024/report.pdf"),
        StageName::Named("report.pdf".to_string())
    );
    assert_eq!(StageName::for_path("report.pdf"), StageName::Named("report.pdf".to_string()));
    assert_eq!(StageName::for_path("inbox/"), StageName::Named("inbox".to_string()));
}

#[test]
fn path_without_final_component_gets_a_generated_name() {
    assert_eq!(StageName::for_path("/"), StageName::Generated);
    assert_eq!(StageName::for_path(""), StageName::Generated);
    assert_eq!(StageName::for_path("uploads/.."), StageName::Generated);
}

#[test]
fn name_from_file_name() {
    assert_eq!(
        StageName::from_file_name(Some("a.txt".to_string())),
        StageName::Named("a.txt".to_string())
    );
    assert_eq!(StageName::from_file_name(None), StageName::Generated);
    assert_eq!(
        StageName::Named("a.txt".to_string()).duplicate(),
        StageName::Named("a.txt".to_string())
    );
    assert_eq!(StageName::Generated.duplicate(), StageName::Generated);
}

#[test]
fn buffer_is_four_kibibytes() {
    assert_eq!(STAGE_BUFFER, 4096);
}

#[test]
fn fresh_upload_holds_the_payload() {
    let payload = pattern(1000, 3);
    let (file, copied) = stage("/in/report.pdf", Vec::new(), 0, &payload);
    assert_eq!(copied, 1000);
    assert_eq!(file.bytes(), &payload);
    assert_eq!(file.len(), 1000);
    assert_eq!(file.start(), 0);
    assert_eq!(file.stage_name(), &StageName::Named("report.pdf".to_string()));
}

#[test]
fn resumed_upload_keeps_the_prefix_and_drops_the_tail() {
    let first = pattern(10, 1);
    let (file, _) = stage("a.bin", Vec::new(), 0, &first);
    let prior = file.bytes().clone();
    let (resumed, copied) = stage("a.bin", prior, 4, &[200, 201, 202]);
    assert_eq!(copied, 3);
    assert_eq!(resumed.bytes(), &vec![first[0], first[1], first[2], first[3], 200, 201, 202]);
    assert_eq!(resumed.start(), 4);
    assert_eq!(resumed.len(), 7);
}

#[test]
fn offset_past_the_end_is_zero_filled() {
    let (file, copied) = stage("a.bin", vec![9, 8], 5, &[1, 2]);
    assert_eq!(copied, 2);
    assert_eq!(file.bytes(), &vec![9, 8, 0, 0, 0, 1, 2]);
}

#[test]
fn offset_on_an_empty_file_is_zero_filled() {
    let (file, copied) = stage("a.bin", Vec::new(), 3, &[7]);
    assert_eq!(copied, 1);
    assert_eq!(file.bytes(), &vec![0, 0, 0, 7]);
}

#[test]
fn empty_payload_reports_zero_and_resizes() {
    let (file, copied) = stage("a.bin", vec![1, 2, 3, 4], 2, &[]);
    assert_eq!(copied, 0);
    assert_eq!(file.bytes(), &vec![1, 2]);
    assert_eq!(file.len(), 2);
}

#[test]
fn payload_larger_than_the_buffer_arrives_whole() {
    let payload = pattern(3 * 4096 + 17, 5);
    let prior = pattern(100, 9);
    let (file, copied) = stage("big.bin", prior.clone(), 100, &payload);
    assert_eq!(copied, (3 * 4096 + 17) as u64);
    assert_eq!(file.len(), 100 + 3 * 4096 + 17);
    assert_eq!(&file.bytes()[..100], &prior[..]);
    assert_eq!(&file.bytes()[100..], &payload[..]);
}

#[test]
fn payload_of_exactly_one_buffer() {
    let payload = pattern(4096, 11);
    let (file, copied) = stage("one.bin", Vec::new(), 0, &payload);
    assert_eq!(copied, 4096);
    assert_eq!(file.bytes(), &payload);
}

#[test]
fn open_cuts_to_the_offset() {
    let file = StagedFile::open(StageName::Generated, vec![1, 2, 3], 1);
    assert_eq!(file.bytes(), &vec![1]);
    assert_eq!(file.start(), 1);
    assert_eq!(file.stage_name(), &StageName::Generated);
}

#[test]
fn write_appends_and_reports_the_chunk_length() {
    let mut file = StagedFile::open(StageName::Generated, vec![1, 2, 3], 3);
    assert_eq!(file.write(&[4, 5]), 2);
    assert_eq!(file.write(&[]), 0);
    assert_eq!(file.write(&[6]), 1);
    assert_eq!(file.bytes(), &vec![1, 2, 3, 4, 5, 6]);
    assert_eq!(file.start(), 3);
}
