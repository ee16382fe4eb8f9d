use rand::rngs::StdRng;
use rand::SeedableRng;

use quick_pose::folder::{read_images_in_folder, FolderEntry};
use quick_pose::selection::{first_images, select_images};
use quick_pose::session::{Session, SessionError};
use quick_pose::settings::Settings;

fn paths(names: &[&str]) -> Vec<String> {
    names.iter().map(|name| name.to_string()).collect()
}

fn file(name: &str) -> FolderEntry {
    FolderEntry::File(Some(name.to_string()))
}

fn settings(folder: &str, images_number: usize) -> Settings {
    Settings { folder: folder.to_string(), images_number, duration: None, pause: None }
}

fn seeded(seed: u64) -> StdRng {
    StdRng::seed_from_u64(seed)
}

fn has_duplicates(images: &[String]) -> bool {
    (0..images.len()).any(|i| (0..i).any(|j| images[i] == images[j]))
}

#[test]
fn new_session_is_empty() {
    let session = Session::new();
    assert!(session.images().is_empty());
    assert_eq!(session.current_image(), None);
    assert_eq!(session.session_time(), 0);
    assert_eq!(session.pause_time(), 0);
    assert_eq!(session.position(), (1, 0));
}

#[test]
fn with_images_starts_at_the_first_image() {
    let session = Session::with_images(paths(&["a", "b", "c"]), 30, 5);
    assert_eq!(session.images(), &paths(&["a", "b", "c"]));
    assert_eq!(session.current_image(), Some("a".to_string()));
    assert_eq!(session.session_time(), 30);
    assert_eq!(session.pause_time(), 5);
    assert_eq!(session.position(), (1, 3));
}

#[test]
fn next_then_previous_restores_an_interior_position() {
    let mut session = Session::with_images(paths(&["a", "b", "c", "d"]), 0, 0);
    assert_eq!(session.next_image(), Some("b".to_string()));
    assert_eq!(session.position(), (2, 4));
    assert_eq!(session.next_image(), Some("c".to_string()));
    assert_eq!(session.previous_image(), Some("b".to_string()));
    assert_eq!(session.position(), (2, 4));
    assert_eq!(session.current_image(), Some("b".to_string()));
}

#[test]
fn previous_at_the_first_image_changes_nothing() {
    let mut session = Session::with_images(paths(&["a", "b"]), 0, 0);
    assert_eq!(session.previous_image(), None);
    assert_eq!(session.position(), (1, 2));
    assert_eq!(session.current_image(), Some("a".to_string()));
}

#[test]
fn next_at_the_last_image_changes_nothing() {
    let mut session = Session::with_images(paths(&["a", "b"]), 0, 0);
    assert_eq!(session.next_image(), Some("b".to_string()));
    assert_eq!(session.next_image(), None);
    assert_eq!(session.position(), (2, 2));
    assert_eq!(session.current_image(), Some("b".to_string()));
}

#[test]
fn an_empty_session_cannot_be_walked() {
    let mut session = Session::new();
    assert_eq!(session.next_image(), None);
    assert_eq!(session.previous_image(), None);
    assert_eq!(session.current_image(), None);
    assert_eq!(session.position(), (1, 0));
}

#[test]
fn a_single_image_has_no_neighbours() {
    let mut session = Session::with_images(paths(&["only"]), 0, 0);
    assert_eq!(session.next_image(), None);
    assert_eq!(session.previous_image(), None);
    assert_eq!(session.current_image(), Some("only".to_string()));
}

#[test]
fn a_clone_is_at_the_same_image() {
    let mut session = Session::with_images(paths(&["a", "b", "c"]), 7, 2);
    session.next_image();
    let copy = session.clone();
    assert_eq!(copy.images(), session.images());
    assert_eq!(copy.position(), (2, 3));
    assert_eq!(copy.session_time(), 7);
    assert_eq!(copy.pause_time(), 2);
}

#[test]
fn folder_entries_become_paths_inside_the_folder() {
    let entries = vec![
        file("one.png"),
        FolderEntry::Directory,
        file("two.jpg"),
        FolderEntry::Unreadable,
        FolderEntry::File(None),
        file("three"),
    ];
    assert_eq!(
        read_images_in_folder("/pictures", &entries),
        paths(&["/pictures/one.png", "/pictures/two.jpg", "/pictures/three"])
    );
}

#[test]
fn a_folder_without_files_offers_nothing() {
    assert!(read_images_in_folder("/pictures", &vec![]).is_empty());
    let entries = vec![FolderEntry::Directory, FolderEntry::Unreadable, FolderEntry::File(None)];
    assert!(read_images_in_folder("/pictures", &entries).is_empty());
}

#[test]
fn first_images_keeps_a_prefix() {
    assert_eq!(first_images(paths(&["a", "b", "c"]), 2), paths(&["a", "b"]));
    assert_eq!(first_images(paths(&["a", "b", "c"]), 3), paths(&["a", "b", "c"]));
    assert_eq!(first_images(paths(&["a", "b", "c"]), 10), paths(&["a", "b", "c"]));
    assert!(first_images(paths(&["a", "b", "c"]), 0).is_empty());
    assert!(first_images(Vec::new(), 4).is_empty());
}

#[test]
fn select_images_takes_the_requested_number() {
    let offered = paths(&["a", "b", "c", "d", "e", "f"]);
    let selected = select_images(offered.clone(), 4, &mut seeded(1));
    assert_eq!(selected.len(), 4);
    assert!(!has_duplicates(&selected));
    assert!(selected.iter().all(|path| offered.contains(path)));
}

#[test]
fn select_images_takes_all_when_fewer_are_offered() {
    let offered = paths(&["a", "b", "c"]);
    let mut selected = select_images(offered.clone(), 10, &mut seeded(2));
    assert_eq!(selected.len(), 3);
    selected.sort();
    assert_eq!(selected, offered);
}

#[test]
fn select_images_of_none_or_from_none_is_empty() {
    assert!(select_images(paths(&["a", "b"]), 0, &mut seeded(3)).is_empty());
    assert!(select_images(Vec::new(), 5, &mut seeded(3)).is_empty());
}

#[test]
fn select_images_changes_the_order() {
    let offered: Vec<String> = (0..60).map(|i| format!("image{i}")).collect();
    let mut rng = seeded(4);
    let first = select_images(offered.clone(), 60, &mut rng);
    let second = select_images(offered.clone(), 60, &mut rng);
    assert_ne!(first, offered);
    assert_ne!(second, offered);
    assert_ne!(first, second);
    let mut sorted = first.clone();
    sorted.sort();
    let mut expected = offered.clone();
    expected.sort();
    assert_eq!(sorted, expected);
}

#[test]
fn the_same_generator_gives_the_same_selection() {
    let offered: Vec<String> = (0..30).map(|i| format!("image{i}")).collect();
    let first = select_images(offered.clone(), 10, &mut seeded(5));
    let second = select_images(offered.clone(), 10, &mut seeded(5));
    assert_eq!(first, second);
    let entries = || (0..30).map(|i| file(&format!("{i}.png"))).collect::<Vec<FolderEntry>>();
    let first = Session::from(&settings("/p", 10), Some(entries()), &mut seeded(6)).unwrap();
    let second = Session::from(&settings("/p", 10), Some(entries()), &mut seeded(6)).unwrap();
    assert_eq!(first.images(), second.images());
}

#[test]
fn three_files_and_ten_requested_give_three_images() {
    let entries = vec![file("a.png"), file("b.png"), file("c.png")];
    let session = Session::from(&settings("/pictures", 10), Some(entries), &mut seeded(9)).unwrap();
    let mut images = session.images().clone();
    assert_eq!(images.len(), 3);
    assert!(!has_duplicates(&images));
    images.sort();
    assert_eq!(images, paths(&["/pictures/a.png", "/pictures/b.png", "/pictures/c.png"]));
    assert_eq!(session.position(), (1, 3));
}

#[test]
fn a_session_holds_the_smaller_of_requested_and_offered() {
    let names: Vec<String> = (0..12).map(|i| format!("{i}.png")).collect();
    for requested in 0..20 {
        let entries: Vec<FolderEntry> = names.iter().map(|name| file(name)).collect();
        let session = Session::from(&settings("/p", requested), Some(entries), &mut seeded(9)).unwrap();
        let images = session.images();
        assert_eq!(images.len(), requested.min(12));
        assert!(!has_duplicates(images));
        assert!(images
            .iter()
            .all(|path| names.iter().any(|name| *path == format!("/p/{name}"))));
        assert_eq!(session.position().0, 1);
    }
}

#[test]
fn a_session_of_an_empty_folder_is_empty() {
    let session = Session::from(&settings("/pictures", 10), Some(Vec::new()), &mut seeded(9)).unwrap();
    assert!(session.images().is_empty());
    assert_eq!(session.current_image(), None);
}

#[test]
fn a_session_of_no_requested_images_is_empty() {
    let entries = vec![file("a.png"), file("b.png")];
    let session = Session::from(&settings("/pictures", 0), Some(entries), &mut seeded(9)).unwrap();
    assert!(session.images().is_empty());
}

#[test]
fn an_unreadable_folder_gives_no_session() {
    let built = Session::from(&settings("/missing", 10), None, &mut seeded(9));
    assert_eq!(built.err(), Some(SessionError::FolderUnreadable));
}

#[test]
fn a_session_takes_its_timing_from_the_settings() {
    let timed = Settings {
        folder: "/pictures".to_string(),
        images_number: 1,
        duration: Some(60),
        pause: Some(5),
    };
    let session = Session::from(&timed, Some(vec![file("a.png")]), &mut seeded(9)).unwrap();
    assert_eq!(session.session_time(), 60);
    assert_eq!(session.pause_time(), 5);
    let untimed = settings("/pictures", 1);
    let session = Session::from(&untimed, Some(vec![file("a.png")]), &mut seeded(9)).unwrap();
    assert_eq!(session.session_time(), 0);
    assert_eq!(session.pause_time(), 0);
}

#[test]
fn a_session_uses_the_folder_as_it_is_written() {
    let session = Session::from(&settings("~/Pictures", 1), Some(vec![file("a.png")]), &mut seeded(9)).unwrap();
    assert_eq!(session.current_image(), Some("~/Pictures/a.png".to_string()));
}
