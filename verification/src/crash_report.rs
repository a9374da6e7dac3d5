//! What is shown when the program fails: the message, and the path of the report
//! with the user's name taken out.

use vstd::prelude::*;
use vstd::string::{StrSliceExecFns, StringExecFns};

verus! {

/// Whether `path` names something below a user's directory on a lettered drive:
/// it starts with a capital letter, a colon and `\Users\`.
pub open spec fn in_user_directory(path: Seq<char>) -> bool {
    &&& path.len() >= 9
    &&& 'A' <= path[0] <= 'Z'
    &&& path.subrange(1, 9) == ":\\Users\\"@
}

/// Whether the name of the user ends at `end`: the first backslash behind the
/// start of the name stands there.
pub open spec fn is_name_end(path: Seq<char>, end: int) -> bool {
    &&& 9 <= end < path.len()
    &&& path[end] == '\\'
    &&& forall|i: int| 9 <= i < end ==> path[i] != '\\'
}

/// `path` without the name of the user. On Windows a path below a user's
/// directory keeps its start and what follows the name, and shows `<username>`
/// in place of the name; a path that names only the directory itself, and any
/// other path, stays as it is.
pub open spec fn without_user_name(path: Seq<char>, windows: bool, hidden: Seq<char>) -> bool {
    if windows && in_user_directory(path) && exists|end: int| is_name_end(path, end) {
        exists|end: int|
            #[trigger] is_name_end(path, end) && hidden == path.subrange(0, 9) + "<username>"@ + path.subrange(
                end,
                path.len() as int,
            )
    } else {
        hidden == path
    }
}

/// Takes the name of the user out of `path`.
pub fn remove_info_from_path(path: &str, windows: bool) -> (hidden: String)
    ensures
        without_user_name(path@, windows, hidden@),
{
    proof {
        reveal_strlit(":\\Users\\");
    }
    let len = path.unicode_len();
    if !windows || len < 9 {
        return String::from_str(path);
    }
    let first_char = path.get_char(0);
    if first_char < 'A' || first_char > 'Z' {
        return String::from_str(path);
    }
    let known = ":\\Users\\";
    let mut i: usize = 0;
    while i < 8
        invariant
            i <= 8,
            len == path@.len(),
            len >= 9,
            known@ == ":\\Users\\"@,
            known@.len() == 8,
            forall|k: int| 0 <= k < i ==> path@[1 + k] == known@[k],
        decreases 8 - i,
    {
        if path.get_char(1 + i) != known.get_char(i) {
            assert(path@.subrange(1, 9)[i as int] != known@[i as int]);
            return String::from_str(path);
        }
        i += 1;
    }
    assert(path@.subrange(1, 9) =~= known@);
    assert(in_user_directory(path@));
    let mut end: usize = 9;
    while end < len
        invariant
            windows,
            in_user_directory(path@),
            9 <= end <= len,
            len == path@.len(),
            forall|k: int| 9 <= k < end ==> path@[k] != '\\',
        decreases len - end,
    {
        if path.get_char(end) == '\\' {
            assert(is_name_end(path@, end as int));
            let mut hidden = String::from_str(path.substring_char(0, 9));
            hidden.append("<username>");
            hidden.append(path.substring_char(end, len));
            assert(hidden@ == path@.subrange(0, 9) + "<username>"@ + path@.subrange(
                end as int,
                path@.len() as int,
            ));
            return hidden;
        }
        end += 1;
    }
    assert forall|e: int| !is_name_end(path@, e) by {}
    String::from_str(path)
}

/// The message shown for a failure: with the failure's own words where there
/// are any, and with the place of the report.
pub open spec fn panic_message_text(payload: Option<Seq<char>>, dump_path: Seq<char>) -> Seq<char> {
    match payload {
        Some(words) =>
            "A fatal error has occurred in the tool. The error message is below:\n\n"@ + words
                + "\n\nFor more details, a report file was placed at: "@ + dump_path,
        None =>
            "A fatal error has occurred in the tool. No error message was able to be retrieved.\n\nFor more details, a report file was placed at: "@
                + dump_path,
    }
}

/// The message shown for a failure.
pub fn panic_message(payload: Option<&str>, dump_path: &str) -> (message: String)
    ensures
        message@ == panic_message_text(
            match payload {
                Some(words) => Some(words@),
                None => None,
            },
            dump_path@,
        ),
{
    match payload {
        Some(words) => {
            let mut message = String::from_str(
                "A fatal error has occurred in the tool. The error message is below:\n\n",
            );
            message.append(words);
            message.append("\n\nFor more details, a report file was placed at: ");
            message.append(dump_path);
            message
        },
        None => {
            let mut message = String::from_str(
                "A fatal error has occurred in the tool. No error message was able to be retrieved.\n\nFor more details, a report file was placed at: ",
            );
            message.append(dump_path);
            message
        },
    }
}

} // verus!
