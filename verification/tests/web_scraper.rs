use yahoo_finance::yahoo::web_scraper::{embedded_state, scrape, BASE_URL, DATA_VAR};
use yahoo_finance::YahooError;

fn state(body: &str) -> String {
    embedded_state(body).unwrap()
}

fn lacks(body: &str) {
    match embedded_state(body) {
        Err(YahooError::MissingData { reason }) => assert_eq!(reason, "No quote data"),
        other => panic!("expected MissingData, got {:?}", other),
    }
}

#[test]
fn the_page_of_a_symbol() {
    assert_eq!(scrape(BASE_URL, "AAPL").unwrap(), "https://finance.yahoo.com/quote/AAPL?p=AAPL");
    assert_eq!(
        scrape("http://localhost:3000", "BRK B").unwrap(),
        "http://localhost:3000/quote/BRK%20B?p=BRK+B"
    );
    assert_eq!(
        scrape(BASE_URL, "A&B=C").unwrap(),
        "https://finance.yahoo.com/quote/A&B=C?p=A%26B%3DC"
    );
}

#[test]
fn a_page_that_has_no_address_is_reported() {
    match scrape("finance.yahoo.com", "AAPL") {
        Err(YahooError::InternalURL { url, source }) => {
            assert_eq!(url, "finance.yahoo.com/quote/AAPL");
            assert_eq!(source, url::ParseError::RelativeUrlWithoutBase);
        }
        other => panic!("expected InternalURL, got {:?}", other),
    }
}

#[test]
fn the_state_is_what_the_marked_line_assigns() {
    assert_eq!(DATA_VAR, "root.App.main");
    let page = "<html>\n<script>\n(function (root) {\nroot.App.main = {\"context\":{}};\n}(this));\n</script>\n</html>\n";
    assert_eq!(state(page), "{\"context\":{}}");
}

#[test]
fn white_space_round_the_line_does_not_count() {
    assert_eq!(state("  \t root.App.main = {\"a\":1};  \r\n"), "{\"a\":1}");
    assert_eq!(state("\u{a0}\u{3000}root.App.main={}\u{2028}"), "{}");
    assert_eq!(state("root.App.main = {};\r\nroot.App.main = {\"b\":2};"), "{}");
}

#[test]
fn the_first_marked_line_is_taken() {
    assert_eq!(state("a\nroot.App.main = 1;\nroot.App.main = 2;\n"), "1");
    assert_eq!(state("\n\n\nroot.App.main = 3"), "3");
    assert_eq!(state("root.App.main=4\nroot.App.main=5"), "4");
}

#[test]
fn the_marker_must_start_the_line() {
    lacks("var root.App.main = {};\n");
    lacks("// root.App.main = {};");
    lacks("root.App.mai = {};");
    lacks("root.App\n.main = {};");
    lacks("");
    lacks("\n");
    lacks("<html></html>");
    lacks("Root.App.Main = {}");
}

#[test]
fn what_follows_the_marker_is_cut_as_far_as_it_goes() {
    assert_eq!(state("root.App.main"), "");
    assert_eq!(state("root.App.main;"), "");
    assert_eq!(state("root.App.main = ;;;"), "");
    assert_eq!(state("root.App.main === = {\"a\":\"b=c; \"};;"), "{\"a\":\"b=c; \"}");
    assert_eq!(state("root.App.mainroot.App.main = x"), "x");
    assert_eq!(state("root.App.main.other = x;"), ".other = x");
    assert_eq!(state("root.App.main = a ;"), "a ");
    assert_eq!(state("root.App.main =\troot.App.main;"), "\troot.App.main");
    assert_eq!(state("root.App.main = {\u{e9}\u{4e2d}};"), "{\u{e9}\u{4e2d}}");
}

#[test]
fn the_cut_agrees_with_the_standard_text_functions() {
    let pages = [
        "x\n  root.App.main = {\"k\": [1, 2, 3]};  \ny",
        "root.App.main=;=;",
        " \u{85}root.App.main  ==  z;;\u{85} ",
        "root.App.mainroot.App.mainroot.App = 1;",
        "\troot.App.main\t= 1;\n",
    ];
    for page in pages {
        let line = page.lines().find(|line| line.trim().starts_with(DATA_VAR)).unwrap();
        let expected = line
            .trim()
            .trim_start_matches(DATA_VAR)
            .trim_start_matches(|c| c == ' ' || c == '=')
            .trim_end_matches(';');
        assert_eq!(state(page), expected);
    }
}
