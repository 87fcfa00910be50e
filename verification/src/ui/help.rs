//! The help overlay.
use vstd::prelude::*;
use crate::text::push_all;

verus! {

/// The key bindings the help overlay lists: section headers (a key with no description),
/// blank lines (both empty), and keys with their descriptions.
pub open spec fn help_table() -> Seq<(Seq<char>, Seq<char>)> {
    seq![
        ("Navigation"@, ""@),
        ("j / k"@, "Move down / up"@),
        ("g / G"@, "Jump to top / bottom"@),
        ("Ctrl+d / Ctrl+u"@, "Half-page down / up"@),
        ("h / l"@, "Back / drill-in (Artist→Album→Track)"@),
        ("Tab / Shift+Tab"@, "Cycle focus"@),
        ("1 / 2 / 3 / 4 / 5"@, "Library / Search / Queue / Recent / Playlists"@),
        (""@, ""@),
        ("Playback"@, ""@),
        ("Enter"@, "Play selected track"@),
        ("Space"@, "Toggle pause"@),
        ("n / N"@, "Next / previous track"@),
        ("> / <"@, "Seek forward / backward 10s"@),
        ("+ / -"@, "Volume up / down"@),
        (""@, ""@),
        ("Actions"@, ""@),
        ("e"@, "Enqueue selected track(s)"@),
        ("v"@, "Visual select mode"@),
        ("a"@, "Add to playlist (visual: add all)"@),
        ("/"@, "Filter list / search playlist"@),
        ("Esc"@, "Clear filter / close popup"@),
        ("r"@, "Cycle repeat mode"@),
        ("s"@, "Toggle shuffle"@),
        ("d"@, "Remove from queue / playlist"@),
        ("c"@, "Clear queue"@),
        ("C"@, "Create playlist"@),
        ("D"@, "Delete playlist"@),
        (""@, ""@),
        ("Favorites & Ratings"@, ""@),
        ("f"@, "Toggle favorite (selected or now-playing)"@),
        ("Ctrl+1..5"@, "Set rating 1–5"@),
        ("`"@, "Clear rating"@),
        (""@, ""@),
        ("q"@, "Quit"@),
        ("?"@, "Toggle this help"@),
    ]
}

/// The key bindings the help overlay lists (see [`help_table`]).
pub fn help_entries() -> (r: Vec<(&'static str, &'static str)>)
    ensures
        r@.len() == help_table().len(),
        forall|i: int| 0 <= i < r@.len() ==> (#[trigger] r@[i]).0@ == help_table()[i].0 && r@[i].1@ == help_table()[i].1,
{
    let r: Vec<(&'static str, &'static str)> = vec![
        ("Navigation", ""),
        ("j / k", "Move down / up"),
        ("g / G", "Jump to top / bottom"),
        ("Ctrl+d / Ctrl+u", "Half-page down / up"),
        ("h / l", "Back / drill-in (Artist→Album→Track)"),
        ("Tab / Shift+Tab", "Cycle focus"),
        ("1 / 2 / 3 / 4 / 5", "Library / Search / Queue / Recent / Playlists"),
        ("", ""),
        ("Playback", ""),
        ("Enter", "Play selected track"),
        ("Space", "Toggle pause"),
        ("n / N", "Next / previous track"),
        ("> / <", "Seek forward / backward 10s"),
        ("+ / -", "Volume up / down"),
        ("", ""),
        ("Actions", ""),
        ("e", "Enqueue selected track(s)"),
        ("v", "Visual select mode"),
        ("a", "Add to playlist (visual: add all)"),
        ("/", "Filter list / search playlist"),
        ("Esc", "Clear filter / close popup"),
        ("r", "Cycle repeat mode"),
        ("s", "Toggle shuffle"),
        ("d", "Remove from queue / playlist"),
        ("c", "Clear queue"),
        ("C", "Create playlist"),
        ("D", "Delete playlist"),
        ("", ""),
        ("Favorites & Ratings", ""),
        ("f", "Toggle favorite (selected or now-playing)"),
        ("Ctrl+1..5", "Set rating 1–5"),
        ("`", "Clear rating"),
        ("", ""),
        ("q", "Quit"),
        ("?", "Toggle this help"),
    ];
    r
}

/// A line of the help overlay.
#[derive(Debug)]
pub enum HelpLine {
    /// A section header: a space and the section's name.
    Header(String),
    Blank,
    /// A key, indented by two spaces and padded to twenty columns, and its description.
    Entry(String, String),
}

/// `s` padded with spaces to `n` characters.
pub open spec fn padded(s: Seq<char>, n: nat) -> Seq<char> {
    if s.len() < n { s + Seq::new((n - s.len()) as nat, |i: int| ' ') } else { s }
}

/// The line for an entry of the table: a header for a key without description, a blank
/// line for an empty key, else the key and its description.
pub fn help_line(key: &str, desc: &str) -> (r: HelpLine)
    ensures
        desc@.len() == 0 && key@.len() > 0 ==> (r matches HelpLine::Header(h) && h@ == " "@ + key@),
        key@.len() == 0 ==> r is Blank,
        key@.len() > 0 && desc@.len() > 0 ==> (r matches HelpLine::Entry(k, d) && k@ == "  "@ + padded(key@, 20)
            && d@ == desc@),
{
    proof {
        reveal_strlit(" ");
        reveal_strlit("  ");
    }
    if desc.is_empty() && !key.is_empty() {
        let mut h = String::new();
        push_all(&mut h, " ");
        push_all(&mut h, key);
        HelpLine::Header(h)
    } else if key.is_empty() {
        HelpLine::Blank
    } else {
        let mut k = String::new();
        push_all(&mut k, "  ");
        push_all(&mut k, key);
        let n = crate::text::chars_of(key).len();
        let mut i: usize = n;
        while i < 20
            invariant
                n == key@.len(),
                n <= i <= 20 || (n > 20 && i == n),
                k@ == "  "@ + key@ + Seq::new((i - n) as nat, |j: int| ' '),
            decreases 20 - i,
        {
            k.push(' ');
            i = i + 1;
            assert(k@ =~= "  "@ + key@ + Seq::new((i - n) as nat, |j: int| ' '));
        }
        assert(k@ =~= "  "@ + padded(key@, 20));
        let mut d = String::new();
        push_all(&mut d, desc);
        HelpLine::Entry(k, d)
    }
}

} // verus!
