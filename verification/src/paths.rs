use crate::text::{chars_of, extend_chars, string_of};
use vstd::prelude::*;

verus! {

/// The path of `name` below the directory `dir`: a slash stands between
/// them unless the directory's path is empty or already ends in one.
pub open spec fn joined_path(dir: Seq<char>, name: Seq<char>) -> Seq<char> {
    if dir.len() == 0 || dir.last() == '/' {
        dir + name
    } else {
        dir + seq!['/'] + name
    }
}

/// The path of `name` below the directory `dir`.
pub fn join_path(dir: &str, name: &str) -> (r: String)
    ensures
        r@ == joined_path(dir@, name@),
{
    let mut out = chars_of(dir);
    if out.len() > 0 && out[out.len() - 1] != '/' {
        out.push('/');
    }
    extend_chars(&mut out, &chars_of(name));
    assert(out@ =~= joined_path(dir@, name@));
    string_of(&out)
}

/// The directory that holds this program's files, below the user's data
/// directory `base`.
pub fn get_or_crate_data_dir(base: &str) -> (r: String)
    ensures
        r@ == joined_path(base@, "oraki/"@),
{
    join_path(base, "oraki/")
}

/// The path of the flashcard deck that is written, in the directory
/// `data_dir`.
pub fn get_main_output_anki_path(data_dir: &str) -> (r: String)
    ensures
        r@ == joined_path(data_dir@, "output.apkg"@),
{
    join_path(data_dir, "output.apkg")
}

/// The path of the style sheet for the flashcards, in the directory
/// `data_dir`.
pub fn get_style_css_path(data_dir: &str) -> (r: String)
    ensures
        r@ == joined_path(data_dir@, "style.css"@),
{
    join_path(data_dir, "style.css")
}

/// The path of the store file, in the directory `data_dir`.
pub fn get_main_csv_path(data_dir: &str) -> (r: String)
    ensures
        r@ == joined_path(data_dir@, "main.csv"@),
{
    join_path(data_dir, "main.csv")
}

} // verus!
