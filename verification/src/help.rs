use vstd::prelude::*;

verus! {

/// One entry of the help strip: the key (or keys) to press, and what
/// pressing it does. Kept as a structured pair rather than a delimited
/// label, so a description may contain any character.
pub struct HelpEntry {
    pub keys: String,
    pub action: String,
}

/// The static key legend shown in the top strip, in display order.
pub fn help_entries() -> (r: Vec<HelpEntry>)
    ensures
        r@.len() == 5,
        r@[0].keys@ == "h/l"@ && r@[0].action@ == "Switch Board"@,
        r@[1].keys@ == "a"@ && r@[1].action@ == "Add Ticket"@,
        r@[2].keys@ == "d"@ && r@[2].action@ == "Delete Ticket"@,
        r@[3].keys@ == "q"@ && r@[3].action@ == "Quit"@,
        r@[4].keys@ == "?"@ && r@[4].action@ == "Full Help Menu"@,
{
    let mut out: Vec<HelpEntry> = Vec::new();
    out.push(HelpEntry { keys: "h/l".to_string(), action: "Switch Board".to_string() });
    out.push(HelpEntry { keys: "a".to_string(), action: "Add Ticket".to_string() });
    out.push(HelpEntry { keys: "d".to_string(), action: "Delete Ticket".to_string() });
    out.push(HelpEntry { keys: "q".to_string(), action: "Quit".to_string() });
    out.push(HelpEntry { keys: "?".to_string(), action: "Full Help Menu".to_string() });
    out
}

} // verus!
