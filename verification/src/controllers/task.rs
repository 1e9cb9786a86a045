//! Reading task ids from the path and task records from the form.

use vstd::prelude::*;
use crate::models::Task;
use crate::models::time::Time;
use crate::utils::text::{parse_i32, parse_i32_spec, decimal, lemma_parse_decimal};
use super::Reply;

verus! {

/// The value of a path parameter: present only when the router found it and
/// it is not empty.
pub fn get_path_param(found: Option<&str>) -> (r: Option<String>)
    ensures
        r is Some <==> (found is Some && found.unwrap()@.len() > 0),
        r matches Some(v) ==> v@ == found.unwrap()@,
{
    let value: &str = match found {
        Some(v) => v,
        None => "",
    };
    proof {
        reveal_strlit("");
    }
    if !value.is_empty() {
        return Some(value.to_owned());
    }
    None
}

/// The task id of a path: the parameter read as an `i32`, or 0 when it is
/// absent, empty or not a number.
pub open spec fn path_id(found: Option<Seq<char>>) -> i32 {
    let text = match found {
        Some(v) if v.len() > 0 => v,
        _ => "0"@,
    };
    match parse_i32_spec(text) {
        Some(id) => id,
        None => 0,
    }
}

/// A path parameter that is present and not empty is read as a number by the
/// rules of `i32::from_str` (0 when it is no such number), and an absent or
/// empty one is 0; the decimal writing of any id in `0..=i32::MAX` reads back
/// as that id.
pub proof fn lemma_path_id_reads_parameter(v: Seq<char>, n: nat)
    requires
        n <= 2147483647,
    ensures
        v.len() > 0 && parse_i32_spec(v) is Some ==> path_id(Some(v)) == parse_i32_spec(v).unwrap(),
        v.len() > 0 && parse_i32_spec(v) is None ==> path_id(Some(v)) == 0,
        path_id(None) == 0,
        path_id(Some(Seq::empty())) == 0,
        path_id(Some(decimal(n))) == n,
{
    lemma_parse_decimal(n);
    lemma_parse_decimal(0);
    assert(decimal(0) =~= "0"@) by {
        reveal_strlit("0");
    }
    crate::utils::text::lemma_decimal_reads_back(n);
}

/// The task id in a path parameter (0 when there is none).
pub fn task_id(found: Option<&str>) -> (id: i32)
    ensures
        id == path_id(match found { Some(v) => Some(v@), None => None }),
{
    let text = match get_path_param(found) {
        Some(v) => v,
        None => "0".to_owned(),
    };
    match parse_i32(text.as_str()) {
        Some(id) => id,
        None => 0,
    }
}

/// The task that the show and delete routes act on: only a positive id
/// names one.
pub fn task_to_act_on(found: Option<&str>) -> (r: Option<i32>)
    ensures
        r is Some <==> path_id(match found { Some(v) => Some(v@), None => None }) > 0,
        r matches Some(id) ==> id == path_id(match found { Some(v) => Some(v@), None => None }),
{
    let id = task_id(found);
    if id > 0 {
        Some(id)
    } else {
        None
    }
}

/// The task that the form describes, stamped with `now` as its creation and
/// update time; a missing id or status counts as 0.
pub fn task_from_form(
    id: Option<i32>,
    name: Option<String>,
    content: Option<String>,
    status: Option<i32>,
    now: Time,
) -> (t: Task)
    ensures
        t.id == (match id { Some(i) => i, None => 0 }),
        t.name == name,
        t.content == content,
        t.status == (match status { Some(s) => s, None => 0 }),
        t.create_time == Some(now),
        t.update_time == Some(now),
{
    Task {
        id: match id { Some(i) => i, None => 0 },
        name,
        content,
        create_time: Some(now),
        update_time: Some(now),
        status: match status { Some(s) => s, None => 0 },
    }
}

/// The reply of the task page: 200 OK with the rendered edit page as body,
/// or with no body when there is no task to show.
pub fn show_reply(page: Option<String>) -> (r: Reply)
    ensures
        r.status == 200,
        r.content_type is None,
        r.location is None,
        r.body == page,
{
    Reply { status: 200, content_type: None, body: page, location: None }
}

} // verus!
