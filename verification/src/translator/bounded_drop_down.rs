//! Selection rules of the bounded drop-down of Moxin Translator: a drop-down
//! whose popup stays inside the window. The widget itself draws and handles
//! events; these functions decide which item is selected and what is shown.
use vstd::prelude::*;

verus! {

/// The last valid item index for `label_count` labels (0 when there are none).
pub open spec fn last_item(label_count: nat) -> nat {
    if label_count == 0 {
        0
    } else {
        (label_count - 1) as nat
    }
}

/// The item that a request to select `item` selects: `item`, clamped to the
/// last label.
pub fn clamp_selected_item(item: usize, label_count: usize) -> (r: usize)
    ensures
        r == if item <= last_item(label_count as nat) {
            item as nat
        } else {
            last_item(label_count as nat)
        },
        label_count > 0 ==> r < label_count,
{
    let last = if label_count == 0 {
        0
    } else {
        label_count - 1
    };
    if item <= last {
        item
    } else {
        last
    }
}

/// The item selected by the up arrow key: the previous one, if there is one.
pub fn select_previous(selected: usize) -> (r: Option<usize>)
    ensures
        r == if selected > 0 {
            Some((selected - 1) as usize)
        } else {
            None::<usize>
        },
{
    if selected > 0 {
        Some(selected - 1)
    } else {
        None
    }
}

/// The item selected by the down arrow key among `value_count` values: the
/// next one, if there is one.
pub fn select_next(selected: usize, value_count: usize) -> (r: Option<usize>)
    ensures
        r == if selected + 1 < value_count {
            Some((selected + 1) as usize)
        } else {
            None::<usize>
        },
{
    if value_count > 0 && selected < value_count - 1 {
        Some(selected + 1)
    } else {
        None
    }
}

/// The label of the selected item, or an empty text when there is none.
pub fn selected_label(labels: &Vec<String>, selected: usize) -> (r: String)
    ensures
        r@ == if selected < labels@.len() {
            labels@[selected as int]@
        } else {
            Seq::<char>::empty()
        },
{
    if selected < labels.len() {
        labels[selected].clone()
    } else {
        String::new()
    }
}

/// The text drawn in the closed drop-down: the selected label, or a single
/// space when there is none.
pub fn displayed_label(labels: &Vec<String>, selected: usize) -> (r: &str)
    ensures
        selected < labels@.len() ==> r@ == labels@[selected as int]@,
        selected >= labels@.len() ==> r@ == " "@,
{
    if selected < labels.len() {
        labels[selected].as_str()
    } else {
        " "
    }
}

/// How the open popup reacts to an item that might be selected: the first tap
/// after opening only arms the menu and selects nothing; later taps select.
/// Gives whether the item is selected and whether the next tap is still the first.
pub fn might_be_selected(first_tap: bool) -> (r: (bool, bool))
    ensures
        r.0 == !first_tap,
        r.1 == false,
{
    (!first_tap, false)
}

} // verus!
