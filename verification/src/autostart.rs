//! Starting the app when the user logs in: the entry the system keeps (an
//! XDG autostart file on Linux, a LaunchAgent on macOS, a `Run` value on
//! Windows), as text, and its name.
//!
//! The entry launches the app with `--background` (into the tray) and the
//! `--data-dir` it was given. It's named after the data dir, like the
//! single-instance socket, so an instance on another data dir has its own
//! entry and never touches this one's.

use vstd::prelude::*;
use crate::text::{owned, same, has_any, has_char, push_char, replaced, replace_char, join2};

verus! {

/// The app's id: the desktop entry's and the notifications' name.
pub const APP_ID: &'static str = "dev.fanchao.ferry";

/// A name for the SHA-256 digest of `data`.
pub uninterp spec fn sha256_digest(data: Seq<u8>) -> Seq<u8>;

/// The SHA-256 digest of `data`.
///
/// Trusted: calls `sha2::Sha256::digest`; the digest is a function of the
/// data alone, and SHA-256 digests are 32 bytes long.
#[verifier::external_body]
pub(crate) fn sha256(data: &[u8]) -> (digest: Vec<u8>)
    ensures
        digest@ == sha256_digest(data@),
        digest@.len() == 32,
{
    <sha2::Sha256 as sha2::Digest>::digest(data).to_vec()
}

/// A lowercase hexadecimal digit.
pub open spec fn hex_digit(d: nat) -> char {
    if d < 10 { crate::text::digit(d) }
    else if d == 10 { 'a' }
    else if d == 11 { 'b' }
    else if d == 12 { 'c' }
    else if d == 13 { 'd' }
    else if d == 14 { 'e' }
    else { 'f' }
}

/// `bytes` in lowercase hexadecimal, two digits each.
pub open spec fn hex(bytes: Seq<u8>) -> Seq<char>
    decreases bytes.len(),
{
    if bytes.len() == 0 {
        Seq::empty()
    } else {
        hex(bytes.drop_last()) + seq![hex_digit((bytes.last() / 16) as nat), hex_digit((bytes.last() % 16) as nat)]
    }
}

fn hex_digit_char(d: u8) -> (c: char)
    requires
        d < 16,
    ensures
        c == hex_digit(d as nat),
{
    if d < 10 {
        if d == 0 { '0' } else if d == 1 { '1' } else if d == 2 { '2' } else if d == 3 { '3' }
        else if d == 4 { '4' } else if d == 5 { '5' } else if d == 6 { '6' } else if d == 7 { '7' }
        else if d == 8 { '8' } else { '9' }
    } else if d == 10 { 'a' } else if d == 11 { 'b' } else if d == 12 { 'c' }
    else if d == 13 { 'd' } else if d == 14 { 'e' } else { 'f' }
}

/// The first `count` bytes of `bytes` in lowercase hexadecimal.
pub fn hex_prefix(bytes: &Vec<u8>, count: usize) -> (r: String)
    requires
        count <= bytes@.len(),
    ensures
        r@ == hex(bytes@.take(count as int)),
{
    let mut out = String::new();
    let mut i: usize = 0;
    assert(bytes@.take(0) =~= Seq::<u8>::empty());
    while i < count
        invariant
            i <= count <= bytes@.len(),
            out@ == hex(bytes@.take(i as int)),
        decreases count - i,
    {
        let b = bytes[i];
        assert(bytes@.take(i + 1).drop_last() =~= bytes@.take(i as int));
        assert(bytes@.take(i + 1).last() == b);
        push_char(&mut out, hex_digit_char(b / 16));
        push_char(&mut out, hex_digit_char(b % 16));
        i = i + 1;
    }
    out
}

/// The entry's name: the app's id for the default data dir, else followed
/// by the first 8 bytes of the SHA-256 of the absolute data dir, in hex.
pub open spec fn entry_name_of(data_dir: Option<Seq<char>>) -> Seq<char> {
    match data_dir {
        None => APP_ID@,
        Some(dir) => APP_ID@ + seq!['-'] + hex(sha256_digest(vstd::utf8::encode_utf8(dir)).take(8)),
    }
}

/// The login entry's name, for the data dir given as an absolute path.
pub fn entry_name(data_dir: Option<&str>) -> (name: String)
    ensures
        name@ == entry_name_of(match data_dir { Some(d) => Some(d@), None => None }),
{
    match data_dir {
        None => owned(APP_ID),
        Some(dir) => {
            let digest = sha256(dir.as_bytes());
            let hash = hex_prefix(&digest, 8);
            let mut name = owned(APP_ID);
            push_char(&mut name, '-');
            name.append(hash.as_str());
            name
        }
    }
}

/// The arguments the entry starts the app with: into the tray, on the
/// same data dir (given as an absolute path) if there is one.
pub fn login_args(data_dir: Option<&str>) -> (args: Vec<String>)
    ensures
        args@.len() == if data_dir is Some { 3int } else { 1int },
        args@[0]@ == "--background"@,
        data_dir matches Some(d) ==> args@[1]@ == "--data-dir"@ && args@[2]@ == d@,
{
    let mut args = vec![owned("--background")];
    match data_dir {
        Some(dir) => {
            args.push(owned("--data-dir"));
            args.push(owned(dir));
        }
        None => {}
    }
    args
}

/// The characters that make an `Exec` argument need quotes.
pub open spec fn reserved() -> Seq<char> {
    seq![' ', '\t', '\n', '"', '\'', '\\', '>', '<', '~', '|', '&', ';', '$', '*', '?', '#', '(', ')', '`']
}

/// `s` with `"`, `` ` ``, `$` and `\` escaped by a backslash.
pub open spec fn backslashed(s: Seq<char>) -> Seq<char>
    decreases s.len(),
{
    if s.len() == 0 {
        Seq::empty()
    } else {
        let c = s.last();
        let escaped = if c == '"' || c == '`' || c == '$' || c == '\\' { seq!['\\', c] } else { seq![c] };
        backslashed(s.drop_last()) + escaped
    }
}

/// One argument of `Exec`: quoted if it is empty or holds a reserved
/// character, with `%` doubled, then escaped as a string value (which
/// doubles `\` again).
pub open spec fn exec_arg_of(arg: Seq<char>) -> Seq<char> {
    let needs_quotes = arg.len() == 0 || exists|i: int| 0 <= i < arg.len() && reserved().contains(#[trigger] arg[i]);
    let quoted = if needs_quotes { seq!['"'] + backslashed(arg) + seq!['"'] } else { arg };
    replaced(replaced(quoted, '%', "%%"@), '\\', "\\\\"@)
}

/// One argument of the autostart entry's `Exec` line.
pub fn exec_arg(arg: &str) -> (r: String)
    ensures
        r@ == exec_arg_of(arg@),
{
    let reserved_chars = " \t\n\"'\\><~|&;$*?#()`";
    proof {
        reveal_strlit(" \t\n\"'\\><~|&;$*?#()`");
    }
    assert(reserved_chars@ =~= reserved());
    let n = arg.unicode_len();
    let needs = n == 0 || has_any(arg, reserved_chars);
    assert(needs == (arg@.len() == 0 || exists|i: int| 0 <= i < arg@.len() && reserved().contains(#[trigger] arg@[i])));
    let quoted = if needs {
        let mut quoted = String::new();
        push_char(&mut quoted, '"');
        let mut i: usize = 0;
        assert(arg@.take(0) =~= Seq::<char>::empty());
        while i < n
            invariant
                i <= n == arg@.len(),
                quoted@ == seq!['"'] + backslashed(arg@.take(i as int)),
            decreases n - i,
        {
            let c = arg.get_char(i);
            assert(arg@.take(i + 1).drop_last() =~= arg@.take(i as int));
            assert(arg@.take(i + 1).last() == c);
            if c == '"' || c == '`' || c == '$' || c == '\\' {
                push_char(&mut quoted, '\\');
            }
            push_char(&mut quoted, c);
            i = i + 1;
        }
        assert(arg@.take(n as int) =~= arg@);
        push_char(&mut quoted, '"');
        quoted
    } else {
        owned(arg)
    };
    assert(quoted@ == (if needs { seq!['"'] + backslashed(arg@) + seq!['"'] } else { arg@ }));
    let doubled = replace_char(quoted.as_str(), '%', "%%");
    replace_char(doubled.as_str(), '\\', "\\\\")
}

/// `items` one after another, with `sep` between them.
pub open spec fn joined(items: Seq<Seq<char>>, sep: Seq<char>) -> Seq<char>
    decreases items.len(),
{
    if items.len() == 0 {
        Seq::empty()
    } else if items.len() == 1 {
        items[0]
    } else {
        joined(items.drop_last(), sep) + sep + items.last()
    }
}

/// The `Exec` command: the program and each argument, each as
/// [`exec_arg_of`] writes it, between spaces.
pub open spec fn exec_command(program: Seq<char>, args: Seq<Seq<char>>) -> Seq<char> {
    joined(seq![program].add(args).map_values(|a: Seq<char>| exec_arg_of(a)), seq![' '])
}

pub open spec fn texts(items: Seq<String>) -> Seq<Seq<char>> {
    items.map_values(|s: String| s@)
}

/// The XDG autostart entry (Desktop Entry spec, and the Autostart spec's
/// `Hidden`) that runs `program` with `args`.
pub open spec fn desktop_entry_of(program: Seq<char>, args: Seq<Seq<char>>) -> Seq<char> {
    "[Desktop Entry]\nType=Application\nName=Ferry\nComment=Start Ferry in the tray\nExec="@
        + exec_command(program, args)
        + "\nIcon="@ + APP_ID@ + "\nTerminal=false\nX-GNOME-Autostart-enabled=true\n"@
}

/// The XDG autostart entry that runs `program` with `args`.
pub fn desktop_entry(program: &str, args: &Vec<String>) -> (entry: String)
    ensures
        entry@ == desktop_entry_of(program@, texts(args@)),
{
    let ghost all = seq![program@].add(texts(args@)).map_values(|a: Seq<char>| exec_arg_of(a));
    let mut command = exec_arg(program);
    let mut i: usize = 0;
    assert(all.take(1) =~= seq![exec_arg_of(program@)]);
    while i < args.len()
        invariant
            i <= args@.len(),
            all.len() == args@.len() + 1,
            all == seq![program@].add(texts(args@)).map_values(|a: Seq<char>| exec_arg_of(a)),
            command@ == joined(all.take(i + 1), seq![' ']),
        decreases args@.len() - i,
    {
        let arg = exec_arg(args[i].as_str());
        assert(all[i + 1] == exec_arg_of(args@[i as int]@));
        assert(all.take(i + 2).drop_last() =~= all.take(i + 1));
        push_char(&mut command, ' ');
        command.append(arg.as_str());
        i = i + 1;
    }
    assert(all.take(args@.len() as int + 1) =~= all);
    let mut entry = owned("[Desktop Entry]\nType=Application\nName=Ferry\nComment=Start Ferry in the tray\nExec=");
    entry.append(command.as_str());
    entry.append("\nIcon=");
    entry.append(APP_ID);
    entry.append("\nTerminal=false\nX-GNOME-Autostart-enabled=true\n");
    entry
}

/// Whether an entry line, once its spaces are dropped, says the entry is
/// off.
pub open spec fn off_line(line: Seq<char>) -> bool {
    let compact = crate::text::without(line, seq![' ']);
    compact == "Hidden=true"@ || compact == "X-GNOME-Autostart-enabled=false"@
}

/// `line` without the carriage return that ended it, if any.
pub open spec fn strip_cr(line: Seq<char>) -> Seq<char> {
    if line.len() > 0 && line.last() == '\r' { line.drop_last() } else { line }
}

/// The position of the first newline in `s`, or its length.
pub open spec fn first_newline(s: Seq<char>) -> int
    decreases s.len(),
{
    if s.len() == 0 { 0 } else if s[0] == '\n' { 0 } else { 1 + first_newline(s.drop_first()) }
}

/// The first newline's place is within `s`, and holds a newline when it
/// is before the end.
pub proof fn lemma_first_newline(s: Seq<char>)
    ensures
        0 <= first_newline(s) <= s.len(),
        first_newline(s) < s.len() ==> s[first_newline(s)] == '\n',
    decreases s.len(),
{
    if s.len() > 0 && s[0] != '\n' {
        lemma_first_newline(s.drop_first());
    }
}

/// Whether one of the lines of `s` turns the entry off. A line ends at a
/// newline, without the carriage return before it; the last line is what
/// follows the last newline.
pub open spec fn turned_off(s: Seq<char>) -> bool
    decreases s.len(),
{
    let k = first_newline(s);
    if k >= s.len() {
        off_line(s)
    } else {
        proof { lemma_first_newline(s); }
        off_line(strip_cr(s.take(k))) || turned_off(s.skip(k + 1))
    }
}

/// The lines of `s`, as `str::lines` gives them: each ends at a newline,
/// without the carriage return before it; a last line without a newline
/// counts, an empty one after the last newline doesn't.
pub open spec fn lines(s: Seq<char>) -> Seq<Seq<char>>
    decreases s.len(),
{
    let k = first_newline(s);
    if s.len() == 0 {
        Seq::empty()
    } else if k >= s.len() {
        seq![s]
    } else {
        proof { lemma_first_newline(s); }
        seq![strip_cr(s.take(k))] + lines(s.skip(k + 1))
    }
}

/// A desktop environment turned the entry off exactly when one of its
/// lines, spaces aside, is `Hidden=true` or `X-GNOME-Autostart-enabled=false`.
pub proof fn turned_off_reads_the_lines(s: Seq<char>)
    ensures
        turned_off(s) <==> exists|i: int| 0 <= i < lines(s).len() && off_line(#[trigger] lines(s)[i]),
    decreases s.len(),
{
    let k = first_newline(s);
    lemma_first_newline(s);
    if s.len() == 0 {
        reveal_strlit("Hidden=true");
        reveal_strlit("X-GNOME-Autostart-enabled=false");
        assert(crate::text::without(s, seq![' ']).len() == 0);
        assert(!off_line(s));
    } else if k >= s.len() {
        assert(lines(s) =~= seq![s]);
        if turned_off(s) {
            assert(off_line(lines(s)[0]));
        }
    } else {
        let rest = s.skip(k + 1);
        turned_off_reads_the_lines(rest);
        let first = strip_cr(s.take(k));
        assert(lines(s) =~= seq![first] + lines(rest));
        if off_line(first) {
            assert(lines(s)[0] == first);
        }
        if turned_off(rest) {
            let i = choose|i: int| 0 <= i < lines(rest).len() && off_line(#[trigger] lines(rest)[i]);
            assert(lines(s)[i + 1] == lines(rest)[i]);
        }
        if exists|i: int| 0 <= i < lines(s).len() && off_line(#[trigger] lines(s)[i]) {
            let i = choose|i: int| 0 <= i < lines(s).len() && off_line(#[trigger] lines(s)[i]);
            if i > 0 {
                assert(lines(s)[i] == lines(rest)[i - 1]);
            }
        }
    }
}

fn is_off_line(line: &str) -> (r: bool)
    ensures
        r == off_line(line@),
{
    let compact = crate::text::remove_chars(line, " ");
    proof { reveal_strlit(" "); }
    assert(" "@ =~= seq![' ']);
    same(compact.as_str(), "Hidden=true") || same(compact.as_str(), "X-GNOME-Autostart-enabled=false")
}

/// Whether a desktop environment's settings turned the entry off, rather
/// than removing it.
pub fn disabled_in(entry: &str) -> (r: bool)
    ensures
        r == turned_off(entry@),
{
    let n = entry.unicode_len();
    let mut i: usize = 0;
    assert(entry@.skip(0) =~= entry@);
    loop
        invariant
            i <= n == entry@.len(),
            turned_off(entry@) == turned_off(entry@.skip(i as int)),
        decreases n - i,
    {
        let ghost rest = entry@.skip(i as int);
        let mut j = i;
        while j < n && entry.get_char(j) != '\n'
            invariant
                i <= j <= n == entry@.len(),
                rest == entry@.skip(i as int),
                first_newline(rest) == (j - i) + first_newline(entry@.skip(j as int)),
            decreases n - j,
        {
            assert(entry@.skip(j as int).drop_first() =~= entry@.skip(j + 1));
            j = j + 1;
        }
        proof { lemma_first_newline(rest); }
        assert(j == n ==> entry@.skip(j as int).len() == 0);
        let line = entry.substring_char(i, j);
        assert(line@ =~= rest.take(j - i));
        if j == n {
            assert(rest =~= line@);
            return is_off_line(line);
        }
        let stripped = if j > i && entry.get_char(j - 1) == '\r' {
            entry.substring_char(i, j - 1)
        } else {
            line
        };
        assert(stripped@ =~= strip_cr(line@));
        if is_off_line(stripped) {
            return true;
        }
        assert(rest.skip(j - i + 1) =~= entry@.skip(j + 1));
        i = j + 1;
    }
}

/// `text` with `&`, `<` and `>` escaped for XML.
pub open spec fn xml_of(text: Seq<char>) -> Seq<char> {
    replaced(replaced(replaced(text, '&', "&amp;"@), '<', "&lt;"@), '>', "&gt;"@)
}

/// `text` with `&`, `<` and `>` escaped for XML.
pub fn xml(text: &str) -> (r: String)
    ensures
        r@ == xml_of(text@),
{
    let a = replace_char(text, '&', "&amp;");
    let b = replace_char(a.as_str(), '<', "&lt;");
    replace_char(b.as_str(), '>', "&gt;")
}

/// One `<string>` line of a LaunchAgent's `ProgramArguments` for each of
/// `items`, in order.
pub open spec fn agent_arguments(items: Seq<Seq<char>>) -> Seq<char>
    decreases items.len(),
{
    if items.len() == 0 {
        Seq::empty()
    } else {
        agent_arguments(items.drop_last()) + "\t\t<string>"@ + xml_of(items.last()) + "</string>\n"@
    }
}

/// The LaunchAgent labelled `name` that runs `program` with `args` once at
/// login.
pub open spec fn launch_agent_of(name: Seq<char>, program: Seq<char>, args: Seq<Seq<char>>) -> Seq<char> {
    "<?xml version=\"1.0\" encoding=\"UTF-8\"?>\n<!DOCTYPE plist PUBLIC \"-//Apple//DTD PLIST 1.0//EN\" \"http://www.apple.com/DTDs/PropertyList-1.0.dtd\">\n<plist version=\"1.0\">\n<dict>\n\t<key>Label</key>\n\t<string>"@
        + xml_of(name)
        + "</string>\n\t<key>ProgramArguments</key>\n\t<array>\n"@
        + agent_arguments(seq![program].add(args))
        + "\t</array>\n\t<key>RunAtLoad</key>\n\t<true/>\n\t<key>ProcessType</key>\n\t<string>Interactive</string>\n</dict>\n</plist>\n"@
}

fn push_agent_argument(out: &mut String, arg: &str)
    ensures
        final(out)@ == old(out)@ + "\t\t<string>"@ + xml_of(arg@) + "</string>\n"@,
{
    out.append("\t\t<string>");
    let escaped = xml(arg);
    out.append(escaped.as_str());
    out.append("</string>\n");
}

/// The LaunchAgent (macOS) labelled `name` that runs `program` with
/// `args` once at login.
pub fn launch_agent(name: &str, program: &str, args: &Vec<String>) -> (entry: String)
    ensures
        entry@ == launch_agent_of(name@, program@, texts(args@)),
{
    let ghost all = seq![program@].add(texts(args@));
    let mut arguments = String::new();
    push_agent_argument(&mut arguments, program);
    proof {
        let one = seq![program@];
        assert(all.take(1) =~= one);
        assert(one.drop_last() =~= Seq::<Seq<char>>::empty());
        assert(agent_arguments(one.drop_last()) == Seq::<char>::empty());
        assert(arguments@ =~= agent_arguments(one));
    }
    let mut i: usize = 0;
    while i < args.len()
        invariant
            i <= args@.len(),
            all == seq![program@].add(texts(args@)),
            arguments@ == agent_arguments(all.take(i + 1)),
        decreases args@.len() - i,
    {
        assert(all[i + 1] == args@[i as int]@);
        assert(all.take(i + 2).drop_last() =~= all.take(i + 1));
        push_agent_argument(&mut arguments, args[i].as_str());
        i = i + 1;
    }
    assert(all.take(args@.len() as int + 1) =~= all);
    let mut entry = owned("<?xml version=\"1.0\" encoding=\"UTF-8\"?>\n<!DOCTYPE plist PUBLIC \"-//Apple//DTD PLIST 1.0//EN\" \"http://www.apple.com/DTDs/PropertyList-1.0.dtd\">\n<plist version=\"1.0\">\n<dict>\n\t<key>Label</key>\n\t<string>");
    let label = xml(name);
    entry.append(label.as_str());
    entry.append("</string>\n\t<key>ProgramArguments</key>\n\t<array>\n");
    entry.append(arguments.as_str());
    entry.append("\t</array>\n\t<key>RunAtLoad</key>\n\t<true/>\n\t<key>ProcessType</key>\n\t<string>Interactive</string>\n</dict>\n</plist>\n");
    entry
}

/// An argument of a Windows command line: in double quotes if it is empty
/// or holds a space or a tab.
pub open spec fn windows_arg_of(arg: Seq<char>) -> Seq<char> {
    if arg.len() == 0 || arg.contains(' ') || arg.contains('\t') { seq!['"'] + arg + seq!['"'] } else { arg }
}

/// The Windows `Run` value: the program and each argument, in double
/// quotes where they need them, between spaces. Paths can't hold `"` there.
pub fn command_line(program: &str, args: &Vec<String>) -> (r: String)
    ensures
        r@ == joined(seq![program@].add(texts(args@)).map_values(|a: Seq<char>| windows_arg_of(a)), seq![' ']),
{
    let ghost all = seq![program@].add(texts(args@)).map_values(|a: Seq<char>| windows_arg_of(a));
    let mut line = windows_arg(program);
    let mut i: usize = 0;
    assert(all.take(1) =~= seq![windows_arg_of(program@)]);
    while i < args.len()
        invariant
            i <= args@.len(),
            all.len() == args@.len() + 1,
            all == seq![program@].add(texts(args@)).map_values(|a: Seq<char>| windows_arg_of(a)),
            line@ == joined(all.take(i + 1), seq![' ']),
        decreases args@.len() - i,
    {
        let arg = windows_arg(args[i].as_str());
        assert(all[i + 1] == windows_arg_of(args@[i as int]@));
        assert(all.take(i + 2).drop_last() =~= all.take(i + 1));
        push_char(&mut line, ' ');
        line.append(arg.as_str());
        i = i + 1;
    }
    assert(all.take(args@.len() as int + 1) =~= all);
    line
}

fn windows_arg(arg: &str) -> (r: String)
    ensures
        r@ == windows_arg_of(arg@),
{
    if arg.unicode_len() == 0 || has_char(arg, ' ') || has_char(arg, '\t') {
        let mut quoted = String::new();
        push_char(&mut quoted, '"');
        quoted.append(arg);
        push_char(&mut quoted, '"');
        quoted
    } else {
        owned(arg)
    }
}

} // verus!
