use media_handler::config::MediaConfig;
use media_handler::error::MediaError;
use media_handler::locator::MediaLocator;
use media_handler::source::{LocalMedia, Media, MediaSource, PostgreSQLMedia};

fn locs(names: &[&str]) -> Vec<MediaLocator> {
    names.iter().map(|n| MediaLocator::new(n.to_string())).collect()
}

fn sorted_paths(v: &[MediaLocator]) -> Vec<String> {
    let mut p: Vec<String> = v.iter().map(|l| l.path.clone()).collect();
    p.sort();
    p
}

#[test]
fn local_media_list_is_a_permutation() {
    let paths = locs(&["a.png", "b.png", "c.png", "d.png", "e.png"]);
    let m = LocalMedia::new(paths);
    let list = m.get_media_list();
    assert_eq!(list.len(), 5);
    assert_eq!(sorted_paths(&list), vec!["a.png", "b.png", "c.png", "d.png", "e.png"]);
    // a second call answers again from the full listing
    let again = m.get_media_list();
    assert_eq!(sorted_paths(&again), sorted_paths(&list));
}

#[test]
fn local_media_shuffles_eventually() {
    // With 8 items, 64 fresh permutations virtually surely differ somewhere.
    let names: Vec<String> = (0..8).map(|i| format!("{}.png", i)).collect();
    let name_refs: Vec<&str> = names.iter().map(|s| s.as_str()).collect();
    let m = LocalMedia::new(locs(&name_refs));
    let first: Vec<String> = m.get_media_list().iter().map(|l| l.path.clone()).collect();
    let mut saw_other_order = false;
    for _ in 0..64 {
        let next: Vec<String> = m.get_media_list().iter().map(|l| l.path.clone()).collect();
        if next != first {
            saw_other_order = true;
            break;
        }
    }
    assert!(saw_other_order);
}

#[test]
fn catalog_rows_map_to_locators_in_order() {
    let m = PostgreSQLMedia::new("postgres://localhost/media".to_string());
    let rows = vec![
        Media { url: "http://cdn/one.png".to_string(), format_id: 1, tag_id: 2 },
        Media { url: "http://cdn/two.jpeg".to_string(), format_id: 2, tag_id: 2 },
    ];
    let list = m.get_media_list(rows);
    assert_eq!(list.len(), 2);
    assert_eq!(list[0].path, "http://cdn/one.png");
    assert_eq!(list[1].path, "http://cdn/two.jpeg");
    assert_eq!(m.database_url, "postgres://localhost/media");
    assert_eq!(m.formats, vec!["PNG", "JPEG"]);
    assert_eq!(m.tags, vec!["TEST", "oUI"]);
}

#[test]
fn source_sum_type_serves_both_backends() {
    let local = MediaSource::Local(LocalMedia::new(locs(&["x.png", "y.png"])));
    let list = local.get_media_list(None).unwrap();
    assert_eq!(sorted_paths(&list), vec!["x.png", "y.png"]);

    let db = MediaSource::DB(PostgreSQLMedia::new("postgres://h/db".to_string()));
    let rows = vec![Media { url: "u.png".to_string(), format_id: 1, tag_id: 1 }];
    let list = db.get_media_list(Some(rows)).unwrap();
    assert_eq!(list.len(), 1);
    assert_eq!(list[0].path, "u.png");
}

#[test]
fn catalog_without_rows_is_source_unavailable() {
    let db = MediaSource::DB(PostgreSQLMedia::new("postgres://h/db".to_string()));
    assert_eq!(db.get_media_list(None).unwrap_err(), MediaError::SourceUnavailable);
}

#[test]
fn config_keeps_its_plain_values() {
    let c = MediaConfig::new("media".to_string(), 4);
    assert_eq!(c.data_folder, "media");
    assert_eq!(c.max_threads, 4);
}

#[test]
fn folder_choice_follows_the_probe() {
    let kept = MediaConfig::folder_exist("pics".to_string(), true, "data".to_string());
    assert_eq!(kept, "pics");
    let fallback = MediaConfig::folder_exist("pics".to_string(), false, "data".to_string());
    assert_eq!(fallback, "data");
}
