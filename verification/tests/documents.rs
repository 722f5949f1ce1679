use novel_downloader::calibre::{conversion_result, delegate_to_calibre, working_file};
use novel_downloader::cmd_line::CmdLineArgs;
use novel_downloader::files::clean_file;

#[test]
fn clean_file_makes_one_line_end_of_empty_lines() {
  assert_eq!(Some("a\nb\n".to_string()), clean_file("a\n\n\n \t\nb\r\n"));
  assert_eq!(Some("a\nb".to_string()), clean_file("a  \r\n\r\nb"));
  assert_eq!(Some("plain".to_string()), clean_file("plain"));
  assert_eq!(Some(String::new()), clean_file(""));
}

#[test]
fn clean_file_makes_headings_of_chapter_titles() {
  assert_eq!(Some("\n# Chapter 1: Start".to_string()), clean_file("Chapter 001: Start"));
  assert_eq!(
    Some("intro\n\n# Chapter 12: The End\nlast".to_string()),
    clean_file("intro\n\nChapter 12 - The End\n\nlast")
  );
  assert_eq!(Some("\n# Chapter 7: Seven".to_string()), clean_file("Chapter 7 Seven"));
}

#[test]
fn calibre_is_called_on_the_document_of_the_working_directory() {
  let call = delegate_to_calibre("novel", "C:\\Program Files\\Calibre2", "D:\\books");
  assert_eq!("C:\\Program Files\\Calibre2\\ebook-convert", call.program);
  assert_eq!("D:\\books\\novel.html", call.source);
  assert_eq!("D:\\books\\novel.txt", call.target);
  assert_eq!("--unsmarten-punctuation", call.option);
  assert_eq!("D:\\books\\novel", working_file("D:\\books", "novel"));
}

#[test]
fn calibre_result_is_told_in_words() {
  assert_eq!(Ok("Calibre was finished successfully".to_string()), conversion_result(true));
  assert_eq!(Err("Calibre was not successful while parsing.".to_string()), conversion_result(false));
}

#[test]
fn document_file_is_the_output_with_html_behind_it() {
  let args = CmdLineArgs {
    url: "https://www.test.com".to_string(),
    output: "test".to_string(),
    calibre_dir: "C:\\Program Files\\Calibre2".to_string(),
  };
  assert_eq!("test.html", args.document_file());
}
