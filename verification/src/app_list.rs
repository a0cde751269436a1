use vstd::prelude::*;
use vstd::string::{StrSliceExecFns, StringExecFns};
use crate::decimal::{decimal_digits, push_decimal};

verus! {

/// The code of a character, with ASCII capital letters folded to lower case.
pub open spec fn ascii_lower(c: char) -> u32 {
    if 'A' <= c <= 'Z' {
        (c as u32 + 32) as u32
    } else {
        c as u32
    }
}

/// Whether two strings are equal when ASCII letters are compared without
/// regard to case.
pub open spec fn eq_ignore_ascii_case(a: Seq<char>, b: Seq<char>) -> bool {
    a.len() == b.len() && forall|i: int| 0 <= i < a.len() ==> ascii_lower(#[trigger] a[i])
        == ascii_lower(b[i])
}

/// Whether a file extension marks a game: an app bundle or an IPA archive.
pub open spec fn is_game_extension(ext: Seq<char>) -> bool {
    eq_ignore_ascii_case(ext, "app"@) || eq_ignore_ascii_case(ext, "ipa"@)
}

/// Whether a file extension marks a custom graphics driver file.
pub open spec fn is_driver_extension(ext: Seq<char>) -> bool {
    ||| eq_ignore_ascii_case(ext, "zip"@)
    ||| eq_ignore_ascii_case(ext, "so"@)
    ||| eq_ignore_ascii_case(ext, "dylib"@)
    ||| eq_ignore_ascii_case(ext, "dll"@)
}

fn lower_code(c: char) -> (r: u32)
    ensures
        r == ascii_lower(c),
{
    if 'A' <= c && c <= 'Z' {
        c as u32 + 32
    } else {
        c as u32
    }
}

/// Whether `a` and `b` are equal when ASCII letters are compared without
/// regard to case.
pub fn equals_ignore_ascii_case(a: &str, b: &str) -> (r: bool)
    ensures
        r == eq_ignore_ascii_case(a@, b@),
{
    let n = a.unicode_len();
    if n != b.unicode_len() {
        return false;
    }
    let mut i: usize = 0;
    while i < n
        invariant
            n == a@.len(),
            n == b@.len(),
            i <= n,
            forall|j: int| 0 <= j < i ==> ascii_lower(#[trigger] a@[j]) == ascii_lower(b@[j]),
        decreases n - i,
    {
        if lower_code(a.get_char(i)) != lower_code(b.get_char(i)) {
            return false;
        }
        i = i + 1;
    }
    true
}

/// Whether a file with extension `ext` is a game the picker lists: an app
/// bundle or an IPA archive, in any case.
pub fn is_game_bundle_extension(ext: &str) -> (r: bool)
    ensures
        r == is_game_extension(ext@),
{
    equals_ignore_ascii_case(ext, "app") || equals_ignore_ascii_case(ext, "ipa")
}

/// Whether a file with extension `ext` is offered as a custom driver: a ZIP
/// archive or a shared library, in any case.
pub fn is_custom_driver_extension(ext: &str) -> (r: bool)
    ensures
        r == is_driver_extension(ext@),
{
    equals_ignore_ascii_case(ext, "zip") || equals_ignore_ascii_case(ext, "so")
        || equals_ignore_ascii_case(ext, "dylib") || equals_ignore_ascii_case(ext, "dll")
}

/// The name a custom driver is shown by: its file name, or "custom driver"
/// when the path has none that is valid Unicode.
pub fn custom_driver_label(file_name: Option<&str>) -> (label: String)
    ensures
        label@ == match file_name {
            Some(name) => name@,
            None => "custom driver"@,
        },
{
    match file_name {
        Some(name) => String::from_str(name),
        None => String::from_str("custom driver"),
    }
}

/// The title of the custom driver button: the chosen driver's label after
/// "Selected: ", or "No custom driver".
pub fn custom_driver_title(label: Option<&str>) -> (title: String)
    ensures
        title@ == match label {
            Some(l) => "Selected: "@ + l@,
            None => "No custom driver"@,
        },
{
    match label {
        Some(l) => {
            let mut title = String::from_str("Selected: ");
            title.append(l);
            title
        },
        None => String::from_str("No custom driver"),
    }
}

/// The message the picker shows when the games folder does not exist.
pub open spec fn missing_folder_message(folder: Seq<char>) -> Seq<char> {
    "The "@ + folder + " directory couldn't be found. Check you're running touchHLE from the right directory."@
}

/// The message the picker shows when the games folder cannot be listed.
pub open spec fn unlisted_folder_message(folder: Seq<char>, error: Seq<char>) -> Seq<char> {
    "Couldn't get list of apps in the "@ + folder + " directory: "@ + error + "."@
}

/// What the picker shows for the games folder `folder`: the apps found in it,
/// or, when it is not a folder or could not be listed, the message that says
/// so.
pub fn app_picker<T>(folder: &str, is_folder: bool, listing: Result<Vec<T>, String>) -> (r: Result<
    Vec<T>,
    String,
>)
    ensures
        !is_folder ==> (r matches Err(m) && m@ == missing_folder_message(folder@)),
        is_folder ==> match listing {
            Ok(apps) => (r matches Ok(found) && found@ == apps@),
            Err(e) => (r matches Err(m) && m@ == unlisted_folder_message(folder@, e@)),
        },
{
    if !is_folder {
        let mut message = String::from_str("The ");
        message.append(folder);
        message.append(
            " directory couldn't be found. Check you're running touchHLE from the right directory.",
        );
        return Err(message);
    }
    match listing {
        Ok(apps) => Ok(apps),
        Err(error) => {
            let mut message = String::from_str("Couldn't get list of apps in the ");
            message.append(folder);
            message.append(" directory: ");
            message.append(error.as_str());
            message.append(".");
            Err(message)
        },
    }
}

/// The copyright page before page `page`, unless it is the first.
pub fn copyright_prev_page(page: usize) -> (r: Option<usize>)
    ensures
        r == if page == 0 {
            None::<usize>
        } else {
            Some((page - 1) as usize)
        },
{
    if page != 0 {
        Some(page - 1)
    } else {
        None
    }
}

/// The copyright page after page `page`, unless `page` is known to be the
/// last.
pub fn copyright_next_page(page: usize, last_page: Option<usize>) -> (r: Option<usize>)
    requires
        last_page != Some(page) ==> page < usize::MAX,
    ensures
        r == if last_page == Some(page) {
            None::<usize>
        } else {
            Some((page + 1) as usize)
        },
{
    match last_page {
        Some(last) => {
            if last == page {
                None
            } else {
                Some(page + 1)
            }
        },
        None => Some(page + 1),
    }
}

/// What reloading the games list on the user's request comes to: a new list
/// when it found games, otherwise the list stays and a message says why.
pub enum AppsRefresh<T> {
    /// The games found, which replace the list shown.
    Replace(Vec<T>),
    /// The message for a games folder that holds no game yet.
    NothingFound(String),
    /// The message for a games folder that could not be listed.
    Failed(String),
}

/// What reloading the games list comes to, for the games found or the error
/// met while listing them.
pub fn apps_refresh<T>(listing: Result<Vec<T>, String>) -> (r: AppsRefresh<T>)
    ensures
        match listing {
            Ok(apps) => if apps@.len() > 0 {
                r matches AppsRefresh::Replace(found) && found@ == apps@
            } else {
                r matches AppsRefresh::NothingFound(m) && m@
                    == "No games found in the game folder yet."@
            },
            Err(e) => (r matches AppsRefresh::Failed(m) && m@ == "Couldn't refresh the game list: "@
                + e@),
        },
{
    match listing {
        Ok(apps) => {
            if apps.len() > 0 {
                AppsRefresh::Replace(apps)
            } else {
                AppsRefresh::NothingFound(String::from_str("No games found in the game folder yet."))
            }
        },
        Err(error) => {
            let mut message = String::from_str("Couldn't refresh the game list: ");
            message.append(error.as_str());
            AppsRefresh::Failed(message)
        },
    }
}

/// How a resolution is shown: width and height joined by " x ".
pub fn resolution_title(resolution: (u32, u32)) -> (title: String)
    ensures
        title@ == decimal_digits(resolution.0 as nat) + " x "@ + decimal_digits(
            resolution.1 as nat,
        ),
{
    let mut title = String::new();
    push_decimal(&mut title, resolution.0 as u64);
    title.append(" x ");
    push_decimal(&mut title, resolution.1 as u64);
    title
}

/// The version line at the foot of the picker: the product name, the
/// branding followed by a space when there is one, and the version.
pub fn version_line(branding: &str, version: &str) -> (line: String)
    ensures
        line@ == "RadekHLE9.0 "@ + branding@ + (if branding@.len() == 0 {
            ""@
        } else {
            " "@
        }) + version@,
{
    proof {
        reveal_strlit("");
    }
    let mut line = String::from_str("RadekHLE9.0 ");
    line.append(branding);
    if branding.unicode_len() != 0 {
        line.append(" ");
    }
    line.append(version);
    proof {
        if branding@.len() == 0 {
            assert("RadekHLE9.0 "@ + branding@ + ""@ =~= "RadekHLE9.0 "@ + branding@);
        }
    }
    line
}

/// The rows of the custom driver menu, as `(title, tag)` pairs, for the
/// labels of the drivers found: one row per driver tagged with its index, or,
/// when none was found, the single row "No custom drivers installed" tagged
/// -1, which picks no driver.
pub fn custom_driver_menu_entries(labels: &Vec<String>) -> (entries: Vec<(String, i32)>)
    requires
        labels@.len() <= i32::MAX,
    ensures
        labels@.len() == 0 ==> entries@.len() == 1 && entries@[0].0@
            == "No custom drivers installed"@ && entries@[0].1 == -1,
        labels@.len() > 0 ==> entries@.len() == labels@.len() && forall|i: int|
            0 <= i < entries@.len() ==> (#[trigger] entries@[i]).0@ == labels@[i]@
                && entries@[i].1 == i,
{
    let mut entries: Vec<(String, i32)> = Vec::new();
    if labels.len() == 0 {
        entries.push((String::from_str("No custom drivers installed"), -1));
        return entries;
    }
    let mut i: usize = 0;
    while i < labels.len()
        invariant
            labels@.len() <= i32::MAX,
            i <= labels@.len(),
            entries@.len() == i,
            forall|j: int|
                0 <= j < i ==> (#[trigger] entries@[j]).0@ == labels@[j]@ && entries@[j].1 == j,
        decreases labels@.len() - i,
    {
        entries.push((labels[i].clone(), i as i32));
        i = i + 1;
    }
    entries
}

/// What the custom resolution editor does once its fields are confirmed.
pub enum ResolutionEditorUpdate {
    /// The resolution was taken: the editor closes.
    Close,
    /// The fields were refused: the editor stays open and shows this error.
    ShowError(&'static str),
}

/// What the custom resolution editor does once its fields are confirmed,
/// given whether the panel took them: it closes, or it shows "Enter width and
/// height from 64 to 16384.".
pub fn custom_resolution_editor_update(taken: bool) -> (r: ResolutionEditorUpdate)
    ensures
        taken ==> r is Close,
        !taken ==> (r matches ResolutionEditorUpdate::ShowError(m) && m@
            == "Enter width and height from 64 to 16384."@),
{
    if taken {
        ResolutionEditorUpdate::Close
    } else {
        ResolutionEditorUpdate::ShowError("Enter width and height from 64 to 16384.")
    }
}

} // verus!
