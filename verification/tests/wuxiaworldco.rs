use novel_downloader::novels::wuxiaworldco::WuxiaWorldCo;
use novel_downloader::novels::providers::NovelProvider;

#[test]
fn wuxiaworldco_test_supports_url_simple() {
  let url = "https://www.wuxiaworld.co";

  let expected = true;
  let received = WuxiaWorldCo::new().supports_url(url);

  assert_eq!(expected, received, "It should support this url.");
}

#[test]
fn wuxiaworldco_test_supports_url_with_domain() {
  let url = "https://test.wuxiaworld.co";

  let expected = true;
  let received = WuxiaWorldCo::new().supports_url(url);

  assert_eq!(expected, received, "It should support this url.");
}

#[test]
fn wuxiaworldco_test_supports_url_long() {
  let url = "https://wuxiaworld.co/novel/i-might-be-a-fake-cultivator/";

  let expected = true;
  let received = WuxiaWorldCo::new().supports_url(url);

  assert_eq!(expected, received, "It should support this url.");
}

#[test]
fn wuxiaworldco_test_not_supports_url_nonsense() {
  let url = "https://wuxiaworld.co.nonsence/novel/i-might-be-a-fake-cultivator/";

  let expected = false;
  let received = WuxiaWorldCo::new().supports_url(url);

  assert_eq!(expected, received, "It should not support this url.");
}

#[test]
fn test_wuxiaworldco_get_name() {
  let guinea_pig = WuxiaWorldCo::new();

  let expected = "wuxiaworld.co".to_string();
  let received = guinea_pig.get_name();

  assert_eq!(expected, received, "The names must match!")
}

#[test]
fn wuxiaworldco_test_boxnovel_get_release_link() {
  let guinea_pig = WuxiaWorldCo::new();

  let html = r#"
      <div id="oh">
        <ul class="chapter-list clearfix">
          <a class='chapter-item' href="/Rebirth-of-the-Thief-Who-Roamed-the-World/1020876.html">
            <div class='chapter-info'>
              <p class='chapter-name'>Chapter 1 – Rebirth</p>
            </div>
          </a>
          <a class='chapter-item' href="/Rebirth-of-the-Thief-Who-Roamed-the-World/1020877.html">
            <div class='chapter-info'>
              <p class='chapter-name'>Chapter 2 – To Meet Once Again</p>
            </div>
          </a>
          <a class='chapter-item' href="/Rebirth-of-the-Thief-Who-Roamed-the-World/1020878.html">
            <div class='chapter-info'>
              <p class='chapter-name'>Chapter 3 – Haggling</p>
            </div>
          </a>
      </div>
      "#;

  let expected = vec![
    "https://www.wuxiaworld.co/Rebirth-of-the-Thief-Who-Roamed-the-World/1020876.html".to_string(),
    "https://www.wuxiaworld.co/Rebirth-of-the-Thief-Who-Roamed-the-World/1020877.html".to_string(),
    "https://www.wuxiaworld.co/Rebirth-of-the-Thief-Who-Roamed-the-World/1020878.html".to_string(),
  ];

  let received = guinea_pig.get_release_links(&html)
    .expect("Could not parse the html to get the release links");

  assert_eq!(expected, received, "The links in the list should match");
}

#[test]
fn wuxiaworldco_test_boxnovel_get_chapter() {
  let guinea_pig = WuxiaWorldCo::new();

  let html = r#"
    <html>
      <div class="section-list" id="section-list-wp">
        <section class="section">
          <h1 class="chapter-title" style="margin-bottom: 10px;">Chapter 1: I'm Bai Xiaochun</h1>
            <div class="chapter-entity" style="margin-top: 0px;" id="chapter-entity">
              Mount Hood lay in the Eastwood Mountain Range, and at its base was a quaint little village. The villagers there lived off the land, and didn’t have much to do with the outside world.<br><br>
            </div>
        </section>
      </div>
    </html>
  "#;

  let expected =
    "Chapter 1: I\'m Bai Xiaochun\nMount Hood lay in the Eastwood Mountain Range, and at its base was a quaint little village. The villagers there lived off the land, and didn’t have much to do with the outside world.<br><br>";

  let received = guinea_pig.get_chapter(&html)
    .expect("Should not have any errors in the parsing!");

  assert_eq!(expected, received, "This test should pass because both results must return true");
}
