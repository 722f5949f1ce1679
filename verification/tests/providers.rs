use novel_downloader::novels::providers::load;

#[test]
fn test_provider_simple() {
  let expected = "https://boxnovel.com".to_string();
  let provider = load(&expected)
    .expect("This test should pass.");

  assert_eq!("boxnovel.com".to_string(), provider.get_name())
}

#[test]
fn test_provider_with_domain() {
  let expected = "https://test.boxnovel.com".to_string();
  let provider = load(&expected)
    .expect("This test should pass.");

  assert_eq!("boxnovel.com".to_string(), provider.get_name())
}

#[test]
fn test_provider_long() {
  let expected = "https://boxnovel.com/novel/i-might-be-a-fake-cultivator/".to_string();
  let provider = load(&expected)
    .expect("This test should pass.");

  assert_eq!("boxnovel.com".to_string(), provider.get_name())
}

#[test]
fn load_picks_each_site_of_the_catalog() {
  let eatapplepies = load("https://eatapplepies.com/tcf-chapter-1/").expect("a site of the catalog");
  assert_eq!("eatapplepies.com", eatapplepies.get_name());

  let wuxiaworldco = load("https://www.wuxiaworld.co/Some-Novel/").expect("a site of the catalog");
  assert_eq!("wuxiaworld.co", wuxiaworldco.get_name());
}

#[test]
fn load_names_the_url_that_no_site_takes() {
  match load("https://boxnovel.com.nonsence/novel/") {
    Ok(_) => panic!("no site of the catalog takes this URL"),
    Err(text) => assert_eq!(
      "There is no supported provider for url \"https://boxnovel.com.nonsence/novel/\"",
      text
    ),
  }
  assert!(load("").is_err());
}
