use vstd::prelude::*;

use vstd::string::StringExecFns;

use crate::format::{decimal, decimal_string};
use crate::memory::types::MemorySnapshot;
use crate::text::{contains, has_prefix, has_substring, lower, same_text, starts_with, to_lower};

verus! {

/// Which diagnostics lines the debug tab shows.
#[derive(Debug, Clone, Copy, PartialEq, Eq, Structural)]
pub enum DiagnosticsVerbosity {
    ErrorsAndWarnings,
    All,
}

/// Whether a diagnostics line is shown at `v`: everything for `All`, only lines that
/// do not start with `trace ` for `ErrorsAndWarnings`.
pub open spec fn shown(v: DiagnosticsVerbosity, line: Seq<char>) -> bool {
    match v {
        DiagnosticsVerbosity::ErrorsAndWarnings => !has_prefix(line, "trace "@),
        DiagnosticsVerbosity::All => true,
    }
}

impl DiagnosticsVerbosity {
    /// The setting's caption.
    pub fn label(self) -> (l: &'static str)
        ensures
            l@ == match self {
                DiagnosticsVerbosity::ErrorsAndWarnings => "Errors / Warnings"@,
                DiagnosticsVerbosity::All => "All"@,
            },
    {
        match self {
            DiagnosticsVerbosity::ErrorsAndWarnings => "Errors / Warnings",
            DiagnosticsVerbosity::All => "All",
        }
    }

    /// Whether `line` is shown at this setting.
    pub fn includes(self, line: &str) -> (b: bool)
        ensures
            b == shown(self, line@),
    {
        match self {
            DiagnosticsVerbosity::ErrorsAndWarnings => !starts_with(line, "trace "),
            DiagnosticsVerbosity::All => true,
        }
    }
}

/// The group a diagnostics line is listed under, by the first of these that its
/// lower-cased text mentions: display, model or monster_def; traversal, first object
/// or guid; health or hp; target; attach, pid or process.
pub open spec fn category(line: Seq<char>) -> Seq<char> {
    let l = to_lower(line);
    if has_substring(l, "display"@) || has_substring(l, "model"@) || has_substring(
        l,
        "monster_def"@,
    ) {
        "Model Chain"@
    } else if has_substring(l, "traversal"@) || has_substring(l, "first object"@)
        || has_substring(l, "guid"@) {
        "Traversal"@
    } else if has_substring(l, "health"@) || has_substring(l, "hp"@) {
        "Health"@
    } else if has_substring(l, "target"@) {
        "Target"@
    } else if has_substring(l, "attach"@) || has_substring(l, "pid"@) || has_substring(
        l,
        "process"@,
    ) {
        "Process"@
    } else {
        "General"@
    }
}

/// The group a diagnostics line is listed under; see `category`.
pub fn category_for(line: &str) -> (c: &'static str)
    ensures
        c@ == category(line@),
{
    let lower_line = lower(line);
    let l = lower_line.as_str();
    if contains(l, "display") || contains(l, "model") || contains(l, "monster_def") {
        return "Model Chain";
    }
    if contains(l, "traversal") || contains(l, "first object") || contains(l, "guid") {
        return "Traversal";
    }
    if contains(l, "health") || contains(l, "hp") {
        return "Health";
    }
    if contains(l, "target") {
        return "Target";
    }
    if contains(l, "attach") || contains(l, "pid") || contains(l, "process") {
        return "Process";
    }
    "General"
}

/// The text of each string.
pub open spec fn texts(v: Seq<String>) -> Seq<Seq<char>> {
    v.map_values(|s: String| s@)
}

/// The lines shown at `v`.
pub open spec fn shows(v: DiagnosticsVerbosity) -> spec_fn(Seq<char>) -> bool {
    |l: Seq<char>| shown(v, l)
}

/// The lines of the diagnostics log: `status ` and the status message when there is
/// one, then those of the snapshot's diagnostics lines that are shown at `v`.
pub open spec fn log_of(
    status: Seq<char>,
    diagnostics: Option<Seq<Seq<char>>>,
    v: DiagnosticsVerbosity,
) -> Seq<Seq<char>> {
    (if status.len() > 0 {
        seq!["status "@ + status]
    } else {
        seq![]
    }) + match diagnostics {
        Some(d) => d.filter(shows(v)),
        None => seq![],
    }
}

/// The lines of the diagnostics log; see `log_of`.
pub fn log_lines(
    status_message: &str,
    snapshot: Option<&MemorySnapshot>,
    verbosity: DiagnosticsVerbosity,
) -> (lines: Vec<String>)
    ensures
        texts(lines@) == log_of(
            status_message@,
            match snapshot {
                Some(s) => Some(texts(s.diagnostics@)),
                None => None,
            },
            verbosity,
        ),
{
    let mut lines: Vec<String> = Vec::new();
    if !status_message.is_empty() {
        let mut l = String::from_str("status ");
        l.append(status_message);
        lines.push(l);
    }
    let ghost head = texts(lines@);
    assert(head == (if status_message@.len() > 0 {
        seq!["status "@ + status_message@]
    } else {
        Seq::<Seq<char>>::empty()
    }));
    if let Some(s) = snapshot {
        let d = &s.diagnostics;
        let ghost all = texts(d@);
        let mut i: usize = 0;
        while i < d.len()
            invariant
                i <= d.len(),
                all == texts(d@),
                texts(lines@) == head + all.subrange(0, i as int).filter(shows(verbosity)),
            decreases d.len() - i,
        {
            let ghost before = lines@;
            proof {
                assert(all.subrange(0, i + 1) =~= all.subrange(0, i as int).push(d[i as int]@));
                all.subrange(0, i as int).lemma_filter_push(d[i as int]@, shows(verbosity));
            }
            assert(shows(verbosity)(d[i as int]@) == shown(verbosity, d[i as int]@));
            if verbosity.includes(d[i].as_str()) {
                lines.push(d[i].clone());
                assert(texts(lines@) =~= texts(before).push(d[i as int]@));
            }
            i = i + 1;
        }
        assert(all.subrange(0, d.len() as int) =~= all);
    } else {
        assert(head + Seq::<Seq<char>>::empty() =~= head);
    }
    lines
}

/// The lines that fall under category `cat`.
pub open spec fn in_category(cat: Seq<char>) -> spec_fn(Seq<char>) -> bool {
    |l: Seq<char>| category(l) == cat
}

/// The group of `cat` when it has lines: the category and its lines, in order.
pub open spec fn group_entry(lines: Seq<Seq<char>>, cat: Seq<char>) -> Seq<
    (Seq<char>, Seq<Seq<char>>),
> {
    let g = lines.filter(in_category(cat));
    if g.len() > 0 {
        seq![(cat, g)]
    } else {
        seq![]
    }
}

/// The log grouped by category: each category that has lines, in the alphabetical
/// order of the categories' names, with its lines in their order.
pub open spec fn grouped(lines: Seq<Seq<char>>) -> Seq<(Seq<char>, Seq<Seq<char>>)> {
    group_entry(lines, "General"@) + group_entry(lines, "Health"@) + group_entry(
        lines,
        "Model Chain"@,
    ) + group_entry(lines, "Process"@) + group_entry(lines, "Target"@) + group_entry(
        lines,
        "Traversal"@,
    )
}

/// The text of each group.
pub open spec fn group_texts(groups: Seq<(&str, Vec<String>)>) -> Seq<(Seq<char>, Seq<Seq<char>>)> {
    groups.map_values(|e: (&str, Vec<String>)| (e.0@, texts(e.1@)))
}

fn lines_in(lines: &Vec<String>, cat: &str) -> (g: Vec<String>)
    ensures
        texts(g@) == texts(lines@).filter(in_category(cat@)),
{
    let ghost all = texts(lines@);
    let mut g: Vec<String> = Vec::new();
    let mut i: usize = 0;
    while i < lines.len()
        invariant
            i <= lines.len(),
            all == texts(lines@),
            texts(g@) == all.subrange(0, i as int).filter(in_category(cat@)),
        decreases lines.len() - i,
    {
        let ghost before = g@;
        proof {
            assert(all.subrange(0, i + 1) =~= all.subrange(0, i as int).push(lines[i as int]@));
            all.subrange(0, i as int).lemma_filter_push(lines[i as int]@, in_category(cat@));
        }
        assert(in_category(cat@)(lines[i as int]@) == (category(lines[i as int]@) == cat@));
        let c = category_for(lines[i].as_str());
        if same_text(c, cat) {
            g.push(lines[i].clone());
            assert(texts(g@) =~= texts(before).push(lines[i as int]@));
        }
        i = i + 1;
    }
    assert(all.subrange(0, lines.len() as int) =~= all);
    g
}

fn push_group(groups: &mut Vec<(&'static str, Vec<String>)>, lines: &Vec<String>, cat: &'static str)
    ensures
        group_texts(final(groups)@) == group_texts(old(groups)@) + group_entry(texts(lines@), cat@),
{
    let g = lines_in(lines, cat);
    let ghost before = groups@;
    if g.len() > 0 {
        groups.push((cat, g));
        assert(group_texts(groups@) =~= group_texts(before) + group_entry(texts(lines@), cat@));
    } else {
        assert(group_texts(groups@) =~= group_texts(before) + group_entry(texts(lines@), cat@));
    }
}

/// The log grouped by category; see `grouped`.
pub fn grouped_log(lines: &Vec<String>) -> (groups: Vec<(&'static str, Vec<String>)>)
    ensures
        group_texts(groups@) == grouped(texts(lines@)),
{
    let mut groups: Vec<(&'static str, Vec<String>)> = Vec::new();
    assert(group_texts(groups@) =~= Seq::<(Seq<char>, Seq<Seq<char>>)>::empty());
    push_group(&mut groups, lines, "General");
    push_group(&mut groups, lines, "Health");
    push_group(&mut groups, lines, "Model Chain");
    push_group(&mut groups, lines, "Process");
    push_group(&mut groups, lines, "Target");
    push_group(&mut groups, lines, "Traversal");
    assert(group_texts(groups@) =~= grouped(texts(lines@)));
    groups
}

/// Whether a category's group is shown open at first: Traversal, Health and
/// Model Chain are.
pub fn opens_by_default(category: &str) -> (b: bool)
    ensures
        b == (category@ == "Traversal"@ || category@ == "Health"@ || category@ == "Model Chain"@),
{
    same_text(category, "Traversal") || same_text(category, "Health") || same_text(
        category,
        "Model Chain",
    )
}

/// A group's heading: its category and, after two spaces, the number of its lines
/// in brackets.
pub fn group_header(category: &str, count: usize) -> (s: String)
    ensures
        s@ == category@ + "  ("@ + decimal(count as nat) + ")"@,
{
    let mut s = String::from_str(category);
    s.append("  (");
    let d = decimal_string(count as u64);
    s.append(d.as_str());
    s.append(")");
    s
}

} // verus!
