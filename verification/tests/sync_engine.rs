use babylonia_terminal_sdk::game_component::chunks_of;
use babylonia_terminal_sdk::game_component::hash_status;
use babylonia_terminal_sdk::game_component::FileStatus;
use babylonia_terminal_sdk::game_component::GameComponent;
use babylonia_terminal_sdk::game_component::GlobalReporter;
use babylonia_terminal_sdk::manifest::Resource;
use babylonia_terminal_sdk::manifest::Resources;

fn resource(dest: &str, md5: &str, size: u64) -> Resource {
    Resource {
        dest: String::from(dest),
        md5: String::from(md5),
        size,
    }
}

#[test]
fn game_component_lives_under_the_game_directory() {
    let component = GameComponent::new(String::from("/games"));
    assert_eq!(component.game_dir, "/games/PGR");
}

#[test]
fn digest_of_known_bytes_is_exact() {
    // The reference digest of "abc" in every MD5 implementation.
    let abc = resource("a.bin", "900150983cd24fb0d6963f7d28e17f72", 3);
    assert!(abc.verify_file_bytes(b"abc"));
    assert!(!abc.verify_file_bytes(b"abd"));
    match hash_status(b"abc") {
        FileStatus::Present { digest } => {
            assert_eq!(digest, "900150983cd24fb0d6963f7d28e17f72");
        }
        FileStatus::Missing => panic!("hashing bytes always observes a present file"),
    }
}

#[test]
fn verification_marks_exactly_the_corrupt_file() {
    // Resource A is intact on disk, resource B is present but corrupt.
    let a = resource("data/a.pak", "900150983cd24fb0d6963f7d28e17f72", 3);
    let b = resource("data/b.pak", "187ef4436122d1cc2f40dc2b92f0eba0", 2);
    let resources = Resources {
        resource: vec![a, b],
    };
    let statuses = vec![
        hash_status(b"abc"),
        hash_status(b"XX"),
    ];
    let plan = GameComponent::check_and_get_resources_to_download(&resources, &statuses);
    let downloads: Vec<&str> = plan.to_download.iter().map(|r| r.dest.as_str()).collect();
    assert_eq!(downloads, vec!["data/b.pak"]);
    let deletions: Vec<&str> = plan.to_delete.iter().map(|d| d.as_str()).collect();
    assert_eq!(deletions, vec!["data/b.pak"]);
}

#[test]
fn missing_files_are_downloaded_but_not_deleted() {
    let a = resource("a.pak", "900150983cd24fb0d6963f7d28e17f72", 3);
    let resources = Resources {
        resource: vec![a],
    };
    let statuses = vec![FileStatus::Missing];
    let plan = GameComponent::check_and_get_resources_to_download(&resources, &statuses);
    assert_eq!(plan.to_download.len(), 1);
    assert_eq!(plan.to_download[0].dest, "a.pak");
    assert!(plan.to_delete.is_empty());
}

#[test]
fn intact_files_are_left_alone() {
    let a = resource("a.pak", "900150983cd24fb0d6963f7d28e17f72", 3);
    let resources = Resources {
        resource: vec![a],
    };
    let statuses = vec![hash_status(b"abc")];
    let plan = GameComponent::check_and_get_resources_to_download(&resources, &statuses);
    assert!(plan.to_download.is_empty());
    assert!(plan.to_delete.is_empty());
}

#[test]
fn batching_keeps_every_resource_in_order() {
    let resources: Vec<Resource> = (0..7)
        .map(|i| resource(&format!("f{}.pak", i), "00", i as u64))
        .collect();
    let chunks = chunks_of(&resources, 3);
    let lengths: Vec<usize> = chunks.iter().map(|c| c.len()).collect();
    assert_eq!(lengths, vec![3, 3, 1]);
    let flattened: Vec<&str> = chunks
        .iter()
        .flat_map(|c| c.iter().map(|r| r.dest.as_str()))
        .collect();
    assert_eq!(
        flattened,
        vec!["f0.pak", "f1.pak", "f2.pak", "f3.pak", "f4.pak", "f5.pak", "f6.pak"]
    );
}

#[test]
fn total_size_sums_every_resource() {
    let resources = Resources {
        resource: vec![
            resource("a", "00", 10),
            resource("b", "00", 32),
            resource("c", "00", 0),
        ],
    };
    assert_eq!(resources.get_max_size_resources(), 42);
}

#[test]
fn progress_aggregation_never_double_counts() {
    // Two files download concurrently and report absolute byte counts:
    // file 0 goes 0 -> 50 -> 100 of 100, file 1 goes 0 -> 30 of 100.
    let mut reporter = GlobalReporter::new(vec![100, 100]).expect("the sizes fit");
    assert_eq!(reporter.to_download_max_size, 200);
    assert_eq!(reporter.update(0, 50), 50);
    assert_eq!(reporter.update(1, 30), 80);
    assert_eq!(reporter.update(0, 100), 130);
    assert_eq!(reporter.current_progress, 130);

    // The same final values in another interleaving end at the same
    // total.
    let mut other = GlobalReporter::new(vec![100, 100]).expect("the sizes fit");
    assert_eq!(other.update(1, 30), 30);
    assert_eq!(other.update(0, 50), 80);
    assert_eq!(other.update(0, 100), 130);
    assert_eq!(other.current_progress, reporter.current_progress);
}

#[test]
fn progress_totals_that_cannot_fit_are_refused() {
    assert!(GlobalReporter::new(vec![u64::MAX, 1]).is_none());
    assert!(GlobalReporter::new(vec![u64::MAX]).is_some());
}

#[test]
fn an_empty_manifest_needs_no_work() {
    let resources = Resources { resource: vec![] };
    let plan = GameComponent::check_and_get_resources_to_download(&resources, &vec![]);
    assert!(plan.to_download.is_empty());
    assert!(plan.to_delete.is_empty());
    assert!(chunks_of(&plan.to_download, 4).is_empty());
    let reporter = GlobalReporter::new(vec![]).expect("an empty total fits");
    assert_eq!(reporter.to_download_max_size, 0);
    assert_eq!(reporter.current_progress, 0);
}

#[test]
fn a_batch_can_hold_everything() {
    let resources = vec![
        resource("a", "00", 1),
        resource("b", "00", 2),
    ];
    let chunks = chunks_of(&resources, 16);
    assert_eq!(chunks.len(), 1);
    assert_eq!(chunks[0].len(), 2);
}
