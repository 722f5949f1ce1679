use novel_downloader::novels::boxnovel::Boxnovel;
use novel_downloader::novels::eatapplepies::EatApplePies;
use novel_downloader::novels::providers::{LinkError, NovelProvider};
use novel_downloader::novels::wuxiaworldco::WuxiaWorldCo;

#[test]
fn link_errors_are_told_in_words() {
  assert_eq!("Could not load the pattern.", LinkError::PatternRejected.message());
  assert_eq!("The pattern has not matched any chapter link", LinkError::NoChapterLink.message());
}

#[test]
fn page_without_a_chapter_list_is_an_error_for_every_site() {
  let page = "<html><body><ul><li><a href=\"https://test.com/1\">One</a></li></ul></body></html>";

  assert_eq!(Err(LinkError::NoChapterLink), Boxnovel::new().get_release_links(page));
  assert_eq!(Err(LinkError::NoChapterLink), EatApplePies::new().get_release_links(page));
  assert_eq!(Err(LinkError::NoChapterLink), WuxiaWorldCo::new().get_release_links(page));
  assert_eq!(Err(LinkError::NoChapterLink), Boxnovel::new().get_release_links(""));
}

#[test]
fn boxnovel_drops_empty_addresses() {
  let page = r#"
    <ul class="main version-chap">
      <li class="wp-manga-chapter"><a href="https://test.com/2">Two</a></li>
      <li class="wp-manga-chapter"><a href="">Soon</a></li>
      <li class="wp-manga-chapter"><a href="https://test.com/1">One</a></li>
    </ul>
  "#;

  assert_eq!(
    Ok(vec!["https://test.com/1".to_string(), "https://test.com/2".to_string()]),
    Boxnovel::new().get_release_links(page)
  );
}

#[test]
fn list_of_empty_addresses_only_is_an_error() {
  let boxnovel = r#"
    <ul class="main version-chap">
      <li class="wp-manga-chapter"><a href="">Soon</a></li>
    </ul>
  "#;
  let eatapplepies = r#"
    <div class="entry-content"><details><p><a href="">Soon</a></p></details></div>
  "#;

  assert_eq!(Err(LinkError::NoChapterLink), Boxnovel::new().get_release_links(boxnovel));
  assert_eq!(Err(LinkError::NoChapterLink), EatApplePies::new().get_release_links(eatapplepies));
}

#[test]
fn eatapplepies_keeps_the_order_of_the_page() {
  let page = r#"
    <div class="entry-content"><details><p>
      <a href="https://eatapplepies.com/b/">B</a>
      <a href="">Soon</a>
      <a href="https://eatapplepies.com/a/">A</a>
    </p></details></div>
  "#;

  assert_eq!(
    Ok(vec!["https://eatapplepies.com/b/".to_string(), "https://eatapplepies.com/a/".to_string()]),
    EatApplePies::new().get_release_links(page)
  );
}

#[test]
fn eatapplepies_leaves_the_login_form_out_of_the_chapter() {
  let page = r#"
    <div id="primary"><div id="content" role="main"><article class="post">
      <header class="entry-header"><h1 class="entry-title">Novel - Chapter 007: Seven</h1></header>
      <div class="entry-content">
        <p>First.</p>
        <p>No account yet?</p>
        <p>Register</p>
        <p>Username or Email Address</p>
        <p>Password</p>
        <p>Remember Me</p>
        <p>Last.</p>
      </div>
    </article></div></div>
  "#;

  assert_eq!(
    Some("<h1>Chapter 7: Seven</h1>\n\n<p>First.</p>\n<p>Last.</p>\n".to_string()),
    EatApplePies::new().get_chapter(page)
  );
}

#[test]
fn eatapplepies_keeps_a_title_that_names_no_chapter() {
  let page = r#"
    <div id="primary"><div id="content" role="main"><article class="post">
      <header class="entry-header"><h1 class="entry-title">Afterword</h1></header>
      <div class="entry-content"><p>Thanks.</p></div>
    </article></div></div>
  "#;

  assert_eq!(Some("Afterword\n\n<p>Thanks.</p>\n".to_string()), EatApplePies::new().get_chapter(page));
}

#[test]
fn chapter_pages_without_a_chapter_give_none() {
  let page = "<html><body><p>nothing to read here</p></body></html>";

  assert_eq!(None, Boxnovel::new().get_chapter(page));
  assert_eq!(None, EatApplePies::new().get_chapter(page));
  assert_eq!(None, WuxiaWorldCo::new().get_chapter(page));
  assert_eq!(None, Boxnovel::new().get_chapter(""));
}

#[test]
fn wuxiaworldco_needs_both_the_title_and_the_text() {
  let title_only = r#"<section class="section"><h1 class="chapter-title">Chapter 1</h1></section>"#;
  let text_only = r#"
    <section class="section"><div class="chapter-entity" id="chapter-entity">Text</div></section>
  "#;

  assert_eq!(None, WuxiaWorldCo::new().get_chapter(title_only));
  assert_eq!(None, WuxiaWorldCo::new().get_chapter(text_only));
}

#[test]
fn wuxiaworldco_takes_the_title_out_of_the_text() {
  let page = r#"
    <section class="section">
      <h1 class="chapter-title">Chapter 2: Again</h1>
      <div class="chapter-entity" id="chapter-entity">
        Chapter 2: Again<br>He said it once more: Chapter 2: Again.
      </div>
    </section>
  "#;

  assert_eq!(
    Some("Chapter 2: Again\n<br>He said it once more: .".to_string()),
    WuxiaWorldCo::new().get_chapter(page)
  );
}

#[test]
fn wuxiaworldco_puts_the_site_before_each_address() {
  let page = r#"
    <ul class="chapter-list clearfix">
      <a class="chapter-item" href="/novel/1.html">One</a>
      <a class="chapter-item" href="">Soon</a>
    </ul>
  "#;

  assert_eq!(
    Ok(vec!["https://www.wuxiaworld.co/novel/1.html".to_string(), "https://www.wuxiaworld.co".to_string()]),
    WuxiaWorldCo::new().get_release_links(page)
  );
}

#[test]
fn sites_take_their_own_urls_only() {
  assert!(Boxnovel::new().supports_url("boxnovel.com"));
  assert!(Boxnovel::new().supports_url("http://boxnovel.com/"));
  assert!(!Boxnovel::new().supports_url("https://eatapplepies.com"));
  assert!(!Boxnovel::new().supports_url(""));
  assert!(EatApplePies::new().supports_url("eatapplepies.com/x"));
  assert!(!EatApplePies::new().supports_url("https://www.wuxiaworld.co"));
  assert!(WuxiaWorldCo::new().supports_url("wuxiaworld.co"));
  assert!(!WuxiaWorldCo::new().supports_url("https://wuxiaworld.com"));
}
