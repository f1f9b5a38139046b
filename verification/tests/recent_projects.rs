use camera_trace::history::{add_new_project, record_change, remove_id, sort_by_recency};
use camera_trace::project::Project;

fn photo(id: &str, updated_at: u64) -> Project {
    Project {
        id: id.to_string(),
        image: String::new(),
        opacity: 50,
        rotation: 0,
        scale: 100,
        x: 0,
        y: 0,
        flipped: false,
        updated_at,
    }
}

fn ids(list: &[Project]) -> Vec<&str> {
    list.iter().map(|p| p.id.as_str()).collect()
}

#[test]
fn sorting_is_newest_first_and_stable() {
    let sorted = sort_by_recency(vec![
        photo("a", 1),
        photo("b", 5),
        photo("c", 1),
        photo("d", 9),
        photo("e", 5),
    ]);
    assert_eq!(ids(&sorted), vec!["d", "b", "e", "a", "c"]);
    assert!(sort_by_recency(Vec::new()).is_empty());
}

#[test]
fn a_change_replaces_the_first_entry_with_its_id() {
    let history = vec![photo("a", 9), photo("b", 5), photo("a", 1)];
    let mut changed = photo("a", 7);
    changed.x = 4;
    let updated = record_change(history, changed);
    assert_eq!(ids(&updated), vec!["a", "b", "a"]);
    assert_eq!(updated[0].x, 4);
    assert_eq!(updated[0].updated_at, 7);
    assert_eq!(updated[2].updated_at, 1);
}

#[test]
fn a_change_of_an_unknown_project_is_added() {
    let history: Vec<Project> = (0..12).map(|i| photo(&format!("p{i}"), 100 - i)).collect();
    let updated = record_change(history, photo("new", 95));
    assert_eq!(updated.len(), 12);
    assert_eq!(updated[5].id, "new");
    assert_eq!(updated[6].id, "p5");
    assert_eq!(updated[11].id, "p10");
    // a change older than a dozen others falls off the list
    let updated = record_change(updated, photo("old", 0));
    assert_eq!(updated.len(), 12);
    assert!(!updated.iter().any(|p| p.id == "old"));
}

#[test]
fn new_projects_go_in_front_and_the_list_is_capped() {
    let history: Vec<Project> = (0..12).map(|i| photo(&format!("p{i}"), i)).collect();
    let updated = add_new_project(history, photo("n", 0));
    assert_eq!(updated.len(), 12);
    assert_eq!(updated[0].id, "n");
    assert_eq!(updated[11].id, "p10");
}

#[test]
fn removal_drops_every_entry_with_the_id() {
    let history = vec![photo("a", 3), photo("b", 2), photo("a", 1), photo("c", 0)];
    let kept = remove_id(history, &"a".to_string());
    assert_eq!(ids(&kept), vec!["b", "c"]);
    let kept = remove_id(kept, &"zz".to_string());
    assert_eq!(ids(&kept), vec!["b", "c"]);
}
