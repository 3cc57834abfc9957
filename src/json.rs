use vstd::prelude::*;

use crate::error::HueError;
use crate::outcome::{outcome_result, RpcOutcome};
use crate::text::{decimal, decimal_string, json_string, json_string_literal};

verus! {

/// A user object returned from the API.
#[derive(Debug, Clone, PartialEq, Eq)]
pub struct User {
    /// The username of the user.
    pub username: String,
}

/// An object containing the ID of a newly created group.
#[derive(Debug, Clone, Copy, PartialEq, Eq)]
pub struct GroupId {
    /// The ID of the group.
    pub id: usize,
}

/// `"<key>":<value>`, with `value` already JSON text.
pub open spec fn member(key: Seq<char>, value: Seq<char>) -> Seq<char> {
    seq!['"'] + key + seq!['"', ':'] + value
}

/// The ids as a comma-separated list of JSON strings of their decimal text.
pub open spec fn id_items(ids: Seq<usize>) -> Seq<char>
    decreases ids.len(),
{
    if ids.len() == 0 {
        seq![]
    } else if ids.len() == 1 {
        seq!['"'] + decimal(ids[0] as nat) + seq!['"']
    } else {
        id_items(ids.drop_last()) + seq![',', '"'] + decimal(ids.last() as nat) + seq!['"']
    }
}

/// The JSON object that describes a new group: its name, its lights (ids as
/// strings), its type and, where one is given, its room class. `name`,
/// `group_type` and `class` are already JSON string literals.
pub open spec fn group_object(
    name: Seq<char>,
    lights: Seq<usize>,
    group_type: Seq<char>,
    class: Option<Seq<char>>,
) -> Seq<char> {
    let head = seq!['{'] + member("name"@, name) + seq![','] + member(
        "lights"@,
        seq!['['] + id_items(lights) + seq![']'],
    ) + seq![','] + member("type"@, group_type);
    match class {
        Some(c) => head + seq![','] + member("class"@, c) + seq!['}'],
        None => head + seq!['}'],
    }
}

/// The user name a registration answered with: the last outcome decides.
pub open spec fn registration_result(s: Seq<RpcOutcome<User>>) -> Result<String, HueError> {
    if s.len() == 0 {
        Err(HueError::Empty)
    } else {
        match outcome_result(s.last()) {
            Ok(u) => Ok(u.username),
            Err(e) => Err(e),
        }
    }
}

/// Appends `"<key>":` to `out`.
fn push_key(out: &mut String, key: &str)
    ensures
        final(out)@ == old(out)@ + seq!['"'] + key@ + seq!['"', ':'],
{
    proof {
        reveal_strlit("\"");
        reveal_strlit("\":");
    }
    out.append("\"");
    out.append(key);
    out.append("\":");
    proof {
        assert(final(out)@ =~= old(out)@ + seq!['"'] + key@ + seq!['"', ':']);
    }
}

/// Appends the ids as a comma-separated list of JSON strings.
fn push_id_items(out: &mut String, ids: &Vec<usize>)
    ensures
        final(out)@ == old(out)@ + id_items(ids@),
{
    let ghost start = out@;
    let mut i: usize = 0;
    while i < ids.len()
        invariant
            i <= ids@.len(),
            out@ == start + id_items(ids@.subrange(0, i as int)),
        decreases ids@.len() - i,
    {
        proof {
            reveal_strlit("\"");
            reveal_strlit(",\"");
        }
        let ghost before = out@;
        let ghost sep: Seq<char> = if i == 0 { seq!['"'] } else { seq![',', '"'] };
        if i == 0 {
            out.append("\"");
        } else {
            out.append(",\"");
        }
        let d = decimal_string(ids[i]);
        out.append(d.as_str());
        out.append("\"");
        proof {
            let pre = ids@.subrange(0, i as int);
            let next = ids@.subrange(0, i + 1);
            assert(out@ =~= before + sep + decimal(ids@[i as int] as nat) + seq!['"']);
            assert(next.len() == i + 1);
            assert(next.drop_last() =~= pre);
            assert(next.last() == ids@[i as int]);
            if i == 0 {
                assert(next[0] == ids@[0]);
                assert(id_items(pre) =~= Seq::<char>::empty());
                assert(id_items(next) == seq!['"'] + decimal(next[0] as nat) + seq!['"']);
                assert(out@ =~= start + id_items(next));
            } else {
                assert(id_items(next) == id_items(pre) + seq![',', '"'] + decimal(
                    next.last() as nat,
                ) + seq!['"']);
                assert(out@ =~= start + id_items(next));
            }
        }
        i = i + 1;
    }
    proof {
        assert(ids@.subrange(0, ids@.len() as int) =~= ids@);
    }
}

/// The body that creates a group, the texts written as JSON string literals.
pub fn group_body(name: &str, lights: &Vec<usize>, group_type: &str, class: Option<&str>) -> (r:
    String)
    ensures
        r@ == group_object(
            json_string(name@),
            lights@,
            json_string(group_type@),
            match class {
                Some(c) => Some(json_string(c@)),
                None => None,
            },
        ),
{
    proof {
        reveal_strlit("{");
        reveal_strlit("}");
        reveal_strlit(",");
        reveal_strlit("[");
        reveal_strlit("]");
    }
    let qname = json_string_literal(name);
    let qtype = json_string_literal(group_type);
    let mut out = String::from_str("{");
    push_key(&mut out, "name");
    out.append(qname.as_str());
    out.append(",");
    push_key(&mut out, "lights");
    out.append("[");
    push_id_items(&mut out, lights);
    out.append("]");
    out.append(",");
    push_key(&mut out, "type");
    out.append(qtype.as_str());
    let ghost head = out@;
    proof {
        assert(head =~= seq!['{'] + member("name"@, qname@) + seq![','] + member(
            "lights"@,
            seq!['['] + id_items(lights@) + seq![']'],
        ) + seq![','] + member("type"@, qtype@));
    }
    match class {
        Some(c) => {
            let qclass = json_string_literal(c);
            out.append(",");
            push_key(&mut out, "class");
            out.append(qclass.as_str());
            out.append("}");
            proof {
                assert(out@ =~= head + seq![','] + member("class"@, qclass@) + seq!['}']);
            }
        },
        None => {
            out.append("}");
            proof {
                assert(out@ =~= head + seq!['}']);
            }
        },
    }
    out
}

/// The user name that a registration answered with. The bridge answers with
/// a list of outcomes, of which the last decides; an empty list is `Empty`.
pub fn registered_username(responses: Vec<RpcOutcome<User>>) -> (r: Result<String, HueError>)
    ensures
        r == registration_result(responses@),
{
    let mut responses = responses;
    match responses.pop() {
        None => Err(HueError::Empty),
        Some(o) => match o.into_result() {
            Ok(u) => Ok(u.username),
            Err(e) => Err(e),
        },
    }
}

} // verus!
