use vstd::prelude::*;
use vstd::string::StringExecFns;
use crate::quick_options::DEVICE_MENU_VISIBLE_ITEMS;

verus! {

/// The tag of the device-model choice "Default": no override, the app
/// bundle or the built-in default decides.
pub const DEVICE_TAG_DEFAULT: i32 = 1000;

/// The tag of the device-model choice "Auto": match the host screen.
pub const DEVICE_TAG_AUTO: i32 = 1001;

/// The choices of the device-model dropdown, in display order, as
/// `(title, tag)` pairs: "Default", "Auto", then one entry per selectable
/// device family, tagged with its index.
pub open spec fn device_model_entries_for(family_names: Seq<Seq<char>>) -> Seq<(Seq<char>, int)> {
    seq![("Default"@, DEVICE_TAG_DEFAULT as int), ("Auto"@, DEVICE_TAG_AUTO as int)] + Seq::new(
        family_names.len(),
        |i: int| (family_names[i], i),
    )
}

/// The title of a device-model choice: "Default" for no choice, for the
/// default tag and for a tag that names no family; "Native" for the automatic
/// choice; the family's name otherwise.
pub open spec fn device_model_label(tag: Option<i32>, family_names: Seq<Seq<char>>) -> Seq<char> {
    match tag {
        None => "Default"@,
        Some(t) => if t == DEVICE_TAG_DEFAULT {
            "Default"@
        } else if t == DEVICE_TAG_AUTO {
            "Native"@
        } else if 0 <= t < family_names.len() {
            family_names[t as int]
        } else {
            "Default"@
        },
    }
}

/// The choices of the device-model dropdown, given the display names of the
/// selectable device families in order.
pub fn device_model_entries(family_names: &Vec<String>) -> (entries: Vec<(String, i32)>)
    requires
        family_names@.len() <= i32::MAX,
    ensures
        entries@.len() == device_model_entries_for(family_names.deep_view()).len(),
        forall|i: int|
            0 <= i < entries@.len() ==> (#[trigger] entries@[i]).0@ == device_model_entries_for(
                family_names.deep_view(),
            )[i].0 && entries@[i].1 == device_model_entries_for(family_names.deep_view())[i].1,
{
    let ghost spec_entries = device_model_entries_for(family_names.deep_view());
    let mut entries: Vec<(String, i32)> = Vec::new();
    entries.push((String::from_str("Default"), DEVICE_TAG_DEFAULT));
    entries.push((String::from_str("Auto"), DEVICE_TAG_AUTO));
    let mut idx: usize = 0;
    while idx < family_names.len()
        invariant
            family_names@.len() <= i32::MAX,
            spec_entries == device_model_entries_for(family_names.deep_view()),
            idx <= family_names@.len(),
            entries@.len() == idx + 2,
            forall|i: int|
                0 <= i < entries@.len() ==> (#[trigger] entries@[i]).0@ == spec_entries[i].0
                    && entries@[i].1 == spec_entries[i].1,
        decreases family_names@.len() - idx,
    {
        entries.push((family_names[idx].clone(), idx as i32));
        idx = idx + 1;
    }
    entries
}

/// The title of a device-model choice, given the display names of the
/// selectable device families in order.
pub fn device_model_label_for_tag(tag: Option<i32>, family_names: &Vec<String>) -> (label: String)
    ensures
        label@ == device_model_label(tag, family_names.deep_view()),
{
    match tag {
        None => String::from_str("Default"),
        Some(t) => {
            if t == DEVICE_TAG_DEFAULT {
                String::from_str("Default")
            } else if t == DEVICE_TAG_AUTO {
                String::from_str("Native")
            } else if 0 <= t && (t as usize) < family_names.len() {
                family_names[t as usize].clone()
            } else {
                String::from_str("Default")
            }
        },
    }
}

/// The title of the device-model button: the choice's title, then an arrow
/// that points up while the dropdown is open and down while it is closed.
pub fn device_model_button_title(
    tag: Option<i32>,
    open: bool,
    family_names: &Vec<String>,
) -> (title: String)
    ensures
        title@ == device_model_label(tag, family_names.deep_view()) + if open {
            " ▲"@
        } else {
            " ▼"@
        },
{
    let mut title = device_model_label_for_tag(tag, family_names);
    if open {
        title.append(" ▲");
    } else {
        title.append(" ▼");
    }
    title
}

/// Whether row `row` of the device-model dropdown shows while the dropdown is
/// scrolled to `scroll`: the rows from `scroll` on, as many as fit.
pub fn device_menu_row_visible(row: usize, scroll: usize) -> (visible: bool)
    ensures
        visible == (scroll <= row < scroll + DEVICE_MENU_VISIBLE_ITEMS),
{
    scroll <= row && row - scroll < DEVICE_MENU_VISIBLE_ITEMS
}

/// The title the device-model button starts with, before any choice: the
/// title of no choice, then " ^".
pub fn device_model_initial_title(family_names: &Vec<String>) -> (title: String)
    ensures
        title@ == device_model_label(None, family_names.deep_view()) + " ^"@,
{
    let mut title = device_model_label_for_tag(None, family_names);
    title.append(" ^");
    title
}

/// Whether the device-model row tagged `row_tag` shows as selected: it is
/// the chosen one.
pub fn device_menu_row_selected(selected: Option<i32>, row_tag: i32) -> (r: bool)
    ensures
        r == (selected == Some(row_tag)),
{
    match selected {
        Some(tag) => tag == row_tag,
        None => false,
    }
}

} // verus!
