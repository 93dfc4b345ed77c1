use myconnect::autostart::{
    command_line, desktop_entry, disabled_in, entry_name, exec_arg, launch_agent, login_args, xml, APP_ID,
};
use myconnect::i18n::{clamp_digits, follow_setting, without_narrow_spaces, Following};
use myconnect::instance::{asks_to_show, name};
use myconnect::pseudo;
use myconnect::ftl::pseudolocalize;
use myconnect::pseudo::{accent, is_requested};

#[test]
fn the_default_data_dir_has_the_plain_name_and_others_their_own() {
    assert_eq!(entry_name(None), APP_ID);
    let one = entry_name(Some("/tmp/one"));
    let two = entry_name(Some("/tmp/two"));
    assert!(one.starts_with(&format!("{APP_ID}-")), "{one}");
    assert_ne!(one, two);
    assert_eq!(one, entry_name(Some("/tmp/one")));
    // Eight bytes of the digest, in hex.
    assert_eq!(one.len(), APP_ID.len() + 1 + 16);
}

#[test]
fn the_entry_starts_in_the_background_on_the_same_data_dir() {
    assert_eq!(login_args(Some("/tmp/my data")), ["--background", "--data-dir", "/tmp/my data"]);
    assert_eq!(login_args(None), ["--background"]);
}

#[test]
fn exec_quotes_what_needs_it() {
    let entry = desktop_entry(
        "/opt/Ferry App/Ferry",
        &vec!["--data-dir".to_string(), "/home/me/100%$dir".to_string()],
    );
    assert!(
        entry.contains(r#"Exec="/opt/Ferry App/Ferry" --data-dir "/home/me/100%%\\$dir""#),
        "{entry}"
    );
    assert!(!disabled_in(&entry));
    assert!(disabled_in(&format!("{entry}Hidden=true\n")));
}

#[test]
fn an_entry_turned_off_by_the_desktop_reads_as_off() {
    assert!(disabled_in("[Desktop Entry]\r\nX-GNOME-Autostart-enabled = false\r\n"));
    assert!(disabled_in("Hidden=true"));
    assert!(!disabled_in("Hidden=false\nName=Hidden=true too\n"));
    assert!(!disabled_in(""));
}

#[test]
fn plain_arguments_stay_plain() {
    assert_eq!(exec_arg("--background"), "--background");
    assert_eq!(exec_arg(""), "\"\"");
    assert_eq!(exec_arg("50%"), "50%%");
    assert_eq!(exec_arg("a\"b"), "\"a\\\\\"b\"");
}

#[test]
fn the_launch_agent_lists_each_argument() {
    let entry = launch_agent("a&b", "/Applications/Ferry<App", &Vec::new());
    assert!(entry.contains("<string>a&amp;b</string>"));
    assert!(entry.contains("<string>/Applications/Ferry&lt;App</string>"));
    let entry = launch_agent("x", "/p", &vec!["--background".to_string()]);
    assert!(entry.contains("\t\t<string>/p</string>\n\t\t<string>--background</string>\n\t</array>"), "{entry}");
    assert_eq!(xml("<a & b>"), "&lt;a &amp; b&gt;");
}

#[test]
fn the_command_line_quotes_paths_with_spaces() {
    assert_eq!(
        command_line(r"C:\Program Files\Ferry\Ferry.exe", &vec!["--background".to_string()]),
        r#""C:\Program Files\Ferry\Ferry.exe" --background"#
    );
    assert_eq!(command_line("ferry", &vec![String::new()]), "ferry \"\"");
}

#[test]
fn names_differ_by_data_dir() {
    let a = name("/tmp/a", "me");
    assert_eq!(a, name("/tmp/a", "me"));
    assert_ne!(a, name("/tmp/b", "me"));
    assert_ne!(a, name("/tmp/a", "you"));
    assert!(a.starts_with("ferry-") && a.len() < 50, "{a}");
}

#[test]
fn a_later_launch_asks_to_show() {
    assert!(asks_to_show("show\n"));
    assert!(asks_to_show("  show \r\n"));
    assert!(!asks_to_show("shows"));
    assert!(!asks_to_show(""));
}

#[test]
fn the_setting_switches_the_language_unless_forced() {
    let tags = |tags: &[&str]| -> Vec<String> { tags.iter().map(|tag| tag.to_string()).collect() };
    let mut following = Following {
        system: tags(&["de-AT", "en-GB"]),
        forced: false,
        isolating: false,
        setting: None,
    };
    assert_eq!(following.requested(None), None, "the system's already");
    assert_eq!(following.requested(Some("zh-CN")), Some(tags(&["zh-CN"])));
    assert_eq!(following.requested(Some("zh-CN")), None, "no change");
    assert_eq!(following.requested(Some("en-XA")), Some(tags(&["en-XA"])));
    assert_eq!(following.requested(None), Some(tags(&["de-AT", "en-GB"])));
    assert_eq!(
        following.requested(Some("not a tag")),
        Some(tags(&["de-AT", "en-GB"])),
        "the system's"
    );

    let mut forced = Following { system: tags(&["en-XA"]), forced: true, ..following };
    assert_eq!(forced.requested(Some("de")), None);
}

#[test]
fn unit_tests_dont_follow_the_setting() {
    let mut following: Option<Following> = None;
    assert_eq!(follow_setting(&mut following, Some("de")), None);
    assert!(following.is_none());
    let mut following = Some(Following::for_tests());
    assert_eq!(follow_setting(&mut following, Some("de")), Some(vec!["de".to_string()]));
    assert_eq!(follow_setting(&mut following, None), Some(vec!["en-US".to_string()]));
}

#[test]
fn language_tags_are_read_in_their_canonical_form() {
    let mut following = Following::at_start(vec!["en-US".to_string()], false);
    assert_eq!(following.requested(Some("zh-cn")), Some(vec!["zh-CN".to_string()]));
    assert_eq!(following.requested(Some("DE")), Some(vec!["de".to_string()]));
    assert_eq!(following.requested(Some("not a tag")), Some(vec!["en-US".to_string()]), "the system's");
}

#[test]
fn numbers_keep_to_twenty_digits_and_no_narrow_spaces() {
    assert_eq!(clamp_digits(3), 3);
    assert_eq!(clamp_digits(400), 20);
    assert_eq!(without_narrow_spaces("1\u{202f}234".to_string()), "1\u{a0}234");
}

#[test]
fn the_pseudo_locale_accents_and_lengthens() {
    assert_eq!(accent("Settings"), "Šééţţîîñĝš");
    assert_eq!(accent("Hello, "), "Ĥééļļöö, ");
    assert_eq!(accent("Save it"), "Šååvéé îîţ");
    assert_eq!(accent("123 !"), "123 !");
}

#[test]
fn the_pseudo_locale_is_asked_for_by_name() {
    assert_eq!(pseudo::file(), "en-XA/ferry.ftl");
    assert!(is_requested(&vec!["de".to_string(), "en-XA".to_string()]));
    assert!(!is_requested(&vec!["en-GB".to_string()]));
}

/// A pattern's text as the pseudo-locale shows it: string literals as
/// text, a variable by its name, a select by its variants.
fn shown(pattern: &fluent_syntax::ast::Pattern<&str>) -> String {
    pattern.elements.iter().map(|element| match element {
        fluent_syntax::ast::PatternElement::TextElement { value } => value.to_string(),
        fluent_syntax::ast::PatternElement::Placeable { expression } => use_expression(expression),
    }).collect()
}

fn use_expression(expression: &fluent_syntax::ast::Expression<&str>) -> String {
    match expression {
        fluent_syntax::ast::Expression::Select { variants, .. } => {
            let shown: Vec<String> = variants.iter().map(|v| shown(&v.value)).collect();
            format!("{{{}}}", shown.join("|"))
        }
        fluent_syntax::ast::Expression::Inline(fluent_syntax::ast::InlineExpression::StringLiteral { value }) => value.to_string(),
        fluent_syntax::ast::Expression::Inline(fluent_syntax::ast::InlineExpression::VariableReference { id }) => format!("${}", id.name),
        fluent_syntax::ast::Expression::Inline(_) => "?".to_string(),
    }
}

#[test]
fn accents_and_lengthens_text_but_not_arguments_or_keys() {
    let source = "\
greeting = Hello, { $name }!
files =
    { $count ->
        [one] Send { $count } file
       *[other] Send { $count } files
    }
button = Save
    .tooltip = Save it
-brand = Ferry
";
    let pseudo = pseudolocalize(source);
    let resource = fluent_syntax::parser::parse(pseudo.as_str()).unwrap_or_else(|(_, errors)| panic!("{pseudo}\n{errors:?}"));
    let mut messages = Vec::new();
    for entry in &resource.body {
        match entry {
            fluent_syntax::ast::Entry::Message(m) => {
                messages.push((m.id.name.to_string(), m.value.as_ref().map(shown)));
                for a in &m.attributes {
                    messages.push((format!("{}.{}", m.id.name, a.id.name), Some(shown(&a.value))));
                }
            }
            fluent_syntax::ast::Entry::Term(t) => messages.push((format!("-{}", t.id.name), Some(shown(&t.value)))),
            _ => {}
        }
    }
    assert_eq!(
        messages,
        [
            ("greeting".to_string(), Some("[Ĥééļļöö, $name!]".to_string())),
            ("files".to_string(), Some("[{Šééñď $count fîîļéé|Šééñď $count fîîļééš}]".to_string())),
            ("button".to_string(), Some("[Šååvéé]".to_string())),
            ("button.tooltip".to_string(), Some("[Šååvéé îîţ]".to_string())),
            ("-brand".to_string(), Some("Fééŕŕý".to_string())),
        ]
    );
}
