use local_agent::list_files::{ListEntry, ListFiles, Params as ListParams};
use local_agent::markdown_to_html::{MarkdownToHTML, Params as RenderParams};
use local_agent::read_file::{FileReader, Params as ReadParams};
use local_agent::scraper::{Params as ScrapeParams, Scraper};
use local_agent::ErrorKind;

#[test]
fn read_of_empty_file_is_rejected() {
    assert_eq!(FileReader::outcome(true, String::new()), Err(ErrorKind::EmptyContent));
}

#[test]
fn read_of_non_file_is_rejected() {
    assert_eq!(FileReader::outcome(false, "anything".to_string()), Err(ErrorKind::NotAFile));
}

#[test]
fn read_returns_full_text() {
    assert_eq!(FileReader::outcome(true, "data".to_string()), Ok("data".to_string()));
    let params = ReadParams { path: "a.txt".to_string() };
    assert_eq!(params.path, "a.txt");
    assert_eq!(FileReader::name(), "read_file");
}

#[test]
fn listing_of_non_directory_is_rejected() {
    let entries: Vec<ListEntry> = Vec::new();
    assert_eq!(ListFiles::outcome(false, &entries), Err(ErrorKind::NotADirectory));
}

#[test]
fn listing_marks_directories_with_slash() {
    let entries = vec![
        ListEntry { name: "a".to_string(), is_dir: false },
        ListEntry { name: "b".to_string(), is_dir: true },
    ];
    let text = ListFiles::outcome(true, &entries).unwrap();
    assert_eq!(text, "a\nb/\n");
    let lines: Vec<&str> = text.lines().collect();
    assert!(lines.contains(&"a"));
    assert!(lines.contains(&"b/"));
    let params = ListParams { path: ".".to_string() };
    assert_eq!(params.path, ".");
    assert_eq!(ListFiles::name(), "list_files");
}

#[test]
fn listing_of_empty_directory_is_empty() {
    let entries: Vec<ListEntry> = Vec::new();
    assert_eq!(ListFiles::outcome(true, &entries), Ok(String::new()));
}

#[test]
fn render_of_empty_text_is_rejected() {
    assert_eq!(MarkdownToHTML::render(""), Err(ErrorKind::EmptyContent));
}

#[test]
fn render_produces_a_heading() {
    let html = MarkdownToHTML::render("# Title").unwrap();
    assert!(html.contains("<h1"));
    assert!(html.contains("Title"));
    let params = RenderParams { contents: "# Title".to_string() };
    assert_eq!(params.contents, "# Title");
    assert_eq!(MarkdownToHTML::name(), "markdown_to_html");
}

#[test]
fn render_understands_github_flavored_markdown() {
    assert_eq!(
        MarkdownToHTML::render("~Venus~Mars!").unwrap(),
        "<p><del>Venus</del>Mars!</p>"
    );
}

#[test]
fn scrape_converts_fetched_html_to_text() {
    let text = Scraper::outcome(Ok("<h1>Hello</h1>".to_string())).unwrap();
    assert!(text.contains("Hello"));
    assert!(!text.contains("<h1>"));
    let params = ScrapeParams { website: "http://localhost".to_string() };
    assert_eq!(params.website, "http://localhost");
    assert_eq!(Scraper::name(), "website_scraper");
}

#[test]
fn scrape_surfaces_fetch_failures() {
    assert_eq!(Scraper::outcome(Err("timeout".to_string())), Err(ErrorKind::FetchError));
    let _tool = Scraper::new();
    let _other = Scraper::default();
}
