use iprolaunch::context_menu::{
    gnome_script_contents, kde_desktop_contents, remove_uca_action, upsert_uca_action, xfce_action_xml,
};
use iprolaunch::integrate::{desktop_file_contents, mime_types, parse_exec_path, strip_desktop_entry_from_mimeapps};
use iprolaunch::sunshine::{base_url, basic_auth_header, find_existing_index_in_apps, matches_iprolaunch_slug, ExistingApp, Sunshine};

#[test]
fn kde_desktop_contents_substitutes_both_placeholders() {
    let contents = kde_desktop_contents("/opt/iprolaunch/iprolaunch");
    assert!(contents.contains("Exec=\"/opt/iprolaunch/iprolaunch\" add %f"));
    for mime in mime_types() {
        assert!(contents.contains(mime), "missing {mime}");
    }
    assert!(!contents.contains("{bin}"));
    assert!(!contents.contains("{mimetypes}"));
}

#[test]
fn gnome_script_contents_substitutes_the_binary_path() {
    let contents = gnome_script_contents("/opt/iprolaunch/iprolaunch");
    assert!(contents.contains("\"/opt/iprolaunch/iprolaunch\" add \"$path\""));
    assert!(!contents.contains("{bin}"));
}

#[test]
fn xfce_action_xml_substitutes_the_binary_path() {
    let xml = xfce_action_xml("/opt/iprolaunch/iprolaunch");
    assert!(xml.contains("\"/opt/iprolaunch/iprolaunch\" add %f"));
    assert!(!xml.contains("{bin}"));
}

#[test]
fn upsert_creates_a_fresh_document_when_none_existed() {
    let out = upsert_uca_action("", "my-id", "<action>X</action>");
    assert!(out.contains("<?xml"));
    assert!(out.contains("<actions>"));
    assert!(out.contains("<action>X</action>"));
    assert!(out.contains("</actions>"));
}

#[test]
fn upsert_inserts_before_the_closing_actions_tag_leaving_others_intact() {
    let existing = "<?xml version=\"1.0\"?>\n<actions>\n<action><name>Other</name><unique-id>other</unique-id></action>\n</actions>\n";
    let out = upsert_uca_action(existing, "my-id", "<action>Mine</action>");
    assert!(out.contains("<action><name>Other</name><unique-id>other</unique-id></action>"));
    assert!(out.contains("<action>Mine</action>"));
    assert!(out.find("<action>Mine</action>").unwrap() < out.find("</actions>").unwrap());
}

#[test]
fn upsert_replaces_a_prior_copy_of_our_own_action_instead_of_duplicating() {
    let existing = "<actions>\n<action><unique-id>my-id</unique-id><command>old</command></action>\n</actions>\n";
    let out = upsert_uca_action(
        existing,
        "my-id",
        "<action><unique-id>my-id</unique-id><command>new</command></action>",
    );
    assert_eq!(out.matches("<action>").count(), 1);
    assert!(out.contains("new"));
    assert!(!out.contains("old"));
}

#[test]
fn remove_uca_action_strips_only_the_matching_block() {
    let existing = "<actions>\n<action><unique-id>keep</unique-id></action>\n<action><unique-id>drop-me</unique-id></action>\n</actions>\n";
    let (out, changed) = remove_uca_action(existing, "drop-me");
    assert!(changed);
    assert!(out.contains("keep"));
    assert!(!out.contains("drop-me"));
}

#[test]
fn remove_uca_action_does_not_leave_a_blank_line_behind() {
    let existing = "<actions>\n<action><unique-id>drop-me</unique-id></action>\n</actions>\n";
    let (out, changed) = remove_uca_action(existing, "drop-me");
    assert!(changed);
    assert_eq!(out, "<actions>\n</actions>\n");
}

#[test]
fn remove_uca_action_reports_unchanged_when_nothing_matches() {
    let existing = "<actions>\n<action><unique-id>keep</unique-id></action>\n</actions>\n";
    let (out, changed) = remove_uca_action(existing, "not-there");
    assert!(!changed);
    assert_eq!(out, existing);
}

#[test]
fn desktop_file_contents_includes_the_exact_binary_path_and_every_mimetype() {
    let contents = desktop_file_contents("/opt/iprolaunch/iprolaunch");
    assert!(contents.contains("Exec=\"/opt/iprolaunch/iprolaunch\" run %f"));
    assert!(contents.contains("Terminal=false"));
    for mime in mime_types() {
        assert!(contents.contains(mime), "missing {mime}");
    }
}

#[test]
fn strips_our_entry_when_it_is_the_only_one_mapped() {
    let input = "[Default Applications]\napplication/x-msdownload=iprolaunch.desktop;\n";
    let (out, changed) = strip_desktop_entry_from_mimeapps(input);
    assert!(changed);
    assert!(!out.contains("application/x-msdownload"));
}

#[test]
fn leaves_other_apps_mapped_to_the_same_mimetype_alone() {
    let input = "[Default Applications]\napplication/x-msdownload=otherapp.desktop;iprolaunch.desktop;\n";
    let (out, changed) = strip_desktop_entry_from_mimeapps(input);
    assert!(changed);
    assert!(out.contains("application/x-msdownload=otherapp.desktop;"));
    assert!(!out.contains("iprolaunch.desktop"));
}

#[test]
fn leaves_unrelated_mimetypes_and_unrelated_sections_untouched() {
    let input = "[Default Applications]\ntext/plain=gedit.desktop;\n\n[Removed Associations]\napplication/x-msdownload=iprolaunch.desktop;\n";
    let (out, changed) = strip_desktop_entry_from_mimeapps(input);
    assert!(!changed);
    assert_eq!(out.trim_end(), input.trim_end());
}

#[test]
fn also_strips_from_added_associations_not_just_default_applications() {
    let input = "[Added Associations]\napplication/x-msdownload=iprolaunch.desktop;wine.desktop;\n";
    let (out, changed) = strip_desktop_entry_from_mimeapps(input);
    assert!(changed);
    assert_eq!(out.trim_end(), "[Added Associations]\napplication/x-msdownload=wine.desktop;");
}

#[test]
fn no_change_when_our_entry_is_not_present() {
    let input = "[Default Applications]\napplication/x-msdownload=otherapp.desktop;\n";
    let (_, changed) = strip_desktop_entry_from_mimeapps(input);
    assert!(!changed);
}

#[test]
fn parse_exec_path_extracts_the_quoted_binary_path() {
    let content = desktop_file_contents("/opt/iprolaunch/iprolaunch");
    assert_eq!(parse_exec_path(&content), Some("/opt/iprolaunch/iprolaunch".to_string()));
}

#[test]
fn parse_exec_path_is_none_without_an_exec_line() {
    assert_eq!(parse_exec_path("[Desktop Entry]\nType=Application\n"), None);
}

#[test]
fn basic_auth_header_base64_encodes_user_colon_pass() {
    assert_eq!(basic_auth_header("admin", "hunter2"), "Basic YWRtaW46aHVudGVyMg==");
}

#[test]
fn base_url_joins_host_and_port() {
    let cfg = Sunshine {
        host: "localhost".to_string(),
        port: 47990,
        username: None,
        auth_token: None,
        gamescope: iprolaunch::config::GamescopeSetting::Off,
    };
    assert_eq!(base_url(&cfg), "https://localhost:47990");
}

fn existing_app(cmd: &str) -> ExistingApp {
    ExistingApp { cmd: cmd.to_string() }
}

#[test]
fn matches_iprolaunch_slug_ignores_flags_and_binary_path_differences() {
    assert!(matches_iprolaunch_slug("\"/home/user/target/debug/iprolaunch\" kendo", "kendo"));
    assert!(matches_iprolaunch_slug("\"/home/user/target/release/iprolaunch\" kendo", "kendo"));
    assert!(matches_iprolaunch_slug("\"/home/user/iprolaunch\" -f kendo", "kendo"));
}

#[test]
fn matches_iprolaunch_slug_requires_the_exe_stem_to_be_iprolaunch() {
    assert!(!matches_iprolaunch_slug("/usr/bin/some-other-launcher kendo", "kendo"));
}

#[test]
fn matches_iprolaunch_slug_requires_the_exact_slug_as_the_last_token() {
    assert!(!matches_iprolaunch_slug("\"/home/user/iprolaunch\" kendo-2", "kendo"));
    assert!(!matches_iprolaunch_slug("\"/home/user/iprolaunch\"", "kendo"));
}

#[test]
fn find_existing_index_in_apps_matches_by_slug_not_position() {
    let apps = vec![
        existing_app("\"/path/iprolaunch\" game-a"),
        existing_app("\"/path/iprolaunch\" game-b"),
        existing_app("\"/path/iprolaunch\" game-c"),
    ];
    assert_eq!(find_existing_index_in_apps(&apps, "game-b"), Some(1));
}

#[test]
fn find_existing_index_in_apps_is_none_for_a_genuinely_new_slug() {
    let apps = vec![existing_app("\"/path/iprolaunch\" game-a")];
    assert_eq!(find_existing_index_in_apps(&apps, "game-z"), None);
}

#[test]
fn find_existing_index_in_apps_is_none_for_an_empty_list() {
    assert_eq!(find_existing_index_in_apps(&[], "anything"), None);
}

#[test]
fn upserting_twice_changes_nothing_further() {
    let action = "<action><unique-id>my-id</unique-id><command>run</command></action>\n";
    for existing in [
        "",
        "<actions>\n<action><unique-id>other</unique-id></action>\n</actions>\n",
        "<actions>\n<action><unique-id>my-id</unique-id><command>old</command></action>\n</actions>\n",
    ] {
        let once = upsert_uca_action(existing, "my-id", action);
        let twice = upsert_uca_action(&once, "my-id", action);
        assert_eq!(twice, once);
        assert_eq!(once.matches("<unique-id>my-id</unique-id>").count(), 1);
    }
}

#[test]
fn reinstalling_the_thunar_action_updates_it_in_place() {
    let id = "com.iprolaunch.add-to-library";
    let action = xfce_action_xml("/opt/iprolaunch");
    let existing = "<?xml version=\"1.0\"?>\n<actions>\n<action><unique-id>other</unique-id></action>\n</actions>\n";
    let once = upsert_uca_action(existing, id, &action);
    let twice = upsert_uca_action(&once, id, &action);
    assert_eq!(twice, once);
    assert_eq!(once.matches("<unique-id>com.iprolaunch.add-to-library</unique-id>").count(), 1);
    assert!(once.contains("<unique-id>other</unique-id>"));
}
