use de_zoomcamp::command::Subcommand;

#[test]
fn ingest_is_selected_by_its_name() {
    assert_eq!(Subcommand::Ingest.name(), "ingest");
    assert_eq!(Subcommand::from_name("ingest"), Some(Subcommand::Ingest));
}

#[test]
fn other_words_select_nothing() {
    assert_eq!(Subcommand::from_name(""), None);
    assert_eq!(Subcommand::from_name("Ingest"), None);
    assert_eq!(Subcommand::from_name("ingest "), None);
    assert_eq!(Subcommand::from_name("ingests"), None);
    assert_eq!(Subcommand::from_name("inges"), None);
    assert_eq!(Subcommand::from_name("query"), None);
}
