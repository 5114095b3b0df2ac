use nudge::builtin::get_all_commands;
use nudge::selector::resolve;

#[test]
fn empty_selection_means_the_whole_catalog() {
    let catalog = get_all_commands();
    let selection: Vec<usize> = Vec::new();
    let batch = resolve(&catalog, &selection);
    assert_eq!(batch.len(), catalog.len());
    for (a, b) in batch.iter().zip(catalog.iter()) {
        assert_eq!(a.name, b.name);
        assert_eq!(a.command, b.command);
    }
}

#[test]
fn selection_keeps_the_given_order() {
    let catalog = get_all_commands();
    let selection: Vec<usize> = vec![11, 0, 3];
    let batch = resolve(&catalog, &selection);
    assert_eq!(batch.len(), 3);
    assert_eq!(batch[0].name, "Handle Site repository");
    assert_eq!(batch[1].name, "Update Homebrew");
    assert_eq!(batch[2].name, "Update Ruby gems");
}

#[test]
fn singleton_selection() {
    let catalog = get_all_commands();
    let selection: Vec<usize> = vec![13];
    let batch = resolve(&catalog, &selection);
    assert_eq!(batch.len(), 1);
    assert_eq!(batch[0].name, "Run mac-cleanup");
}
