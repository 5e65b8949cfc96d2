//! What the application says about itself.

use vstd::prelude::*;

use crate::json::{flag, json_of, no_members, object, put, Json};

verus! {

/// The name under which the application presents itself.
pub const APP_NAME: &'static str = "Isometry SuperGrid";

/// What the desktop build is able to do for the interface: an object that
/// says `true` of the file system, of native dialogs and of window management.
pub open spec fn desktop_capabilities() -> Json {
    Json::Object(
        Map::<Seq<char>, Json>::empty().insert("file_system"@, Json::Flag(true)).insert(
            "native_dialogs"@,
            Json::Flag(true),
        ).insert("window_management"@, Json::Flag(true)),
    )
}

/// The description of the desktop build at `version`, keeping its data under
/// `app_data_dir`. Only these two vary; the rest is fixed.
pub open spec fn desktop_info(version: Seq<char>, app_data_dir: Seq<char>) -> Json {
    Json::Object(
        Map::<Seq<char>, Json>::empty().insert("name"@, Json::Text(APP_NAME@)).insert(
            "version"@,
            Json::Text(version),
        ).insert("app_data_dir"@, Json::Text(app_data_dir)).insert(
            "desktop"@,
            Json::Flag(true),
        ).insert("capabilities"@, desktop_capabilities()),
    )
}

/// The keys of the capabilities are three different texts.
proof fn capability_keys_differ()
    ensures
        "file_system"@ != "native_dialogs"@,
        "file_system"@ != "window_management"@,
        "native_dialogs"@ != "window_management"@,
{
    reveal_strlit("file_system");
    reveal_strlit("native_dialogs");
    reveal_strlit("window_management");
    assert("file_system"@.len() == 11);
    assert("native_dialogs"@.len() == 14);
    assert("window_management"@.len() == 17);
}

/// The keys of the description are five different texts.
proof fn info_keys_differ()
    ensures
        "name"@ != "version"@,
        "name"@ != "app_data_dir"@,
        "name"@ != "desktop"@,
        "name"@ != "capabilities"@,
        "version"@ != "app_data_dir"@,
        "version"@ != "desktop"@,
        "version"@ != "capabilities"@,
        "app_data_dir"@ != "desktop"@,
        "app_data_dir"@ != "capabilities"@,
        "desktop"@ != "capabilities"@,
{
    reveal_strlit("name");
    reveal_strlit("version");
    reveal_strlit("app_data_dir");
    reveal_strlit("desktop");
    reveal_strlit("capabilities");
    assert("name"@.len() == 4);
    assert("version"@.len() == 7);
    assert("app_data_dir"@.len() == 12);
    assert("desktop"@.len() == 7);
    assert("capabilities"@.len() == 12);
    assert("version"@[0] == 'v');
    assert("desktop"@[0] == 'd');
    assert("app_data_dir"@[0] == 'a');
    assert("capabilities"@[0] == 'c');
}

/// The capabilities are an object of exactly three members, `file_system`,
/// `native_dialogs` and `window_management`, and each of them is `true`.
pub proof fn desktop_capabilities_members()
    ensures
        desktop_capabilities() is Object,
        desktop_capabilities()->Object_0.dom() == set![
            "file_system"@,
            "native_dialogs"@,
            "window_management"@,
        ],
        desktop_capabilities()->Object_0.dom().len() == 3,
        desktop_capabilities()->Object_0["file_system"@] == Json::Flag(true),
        desktop_capabilities()->Object_0["native_dialogs"@] == Json::Flag(true),
        desktop_capabilities()->Object_0["window_management"@] == Json::Flag(true),
{
    capability_keys_differ();
    let members = desktop_capabilities()->Object_0;
    assert(members.dom() =~= set!["file_system"@, "native_dialogs"@, "window_management"@]);
}

/// The description is an object of exactly five members: `name` is the
/// application's name, `version` and `app_data_dir` are the two texts it was
/// made from, `desktop` is `true`, and `capabilities` are those of the desktop
/// build.
pub proof fn desktop_info_members(version: Seq<char>, app_data_dir: Seq<char>)
    ensures
        desktop_info(version, app_data_dir) is Object,
        desktop_info(version, app_data_dir)->Object_0.dom() == set![
            "name"@,
            "version"@,
            "app_data_dir"@,
            "desktop"@,
            "capabilities"@,
        ],
        desktop_info(version, app_data_dir)->Object_0.dom().len() == 5,
        desktop_info(version, app_data_dir)->Object_0["name"@] == Json::Text(APP_NAME@),
        desktop_info(version, app_data_dir)->Object_0["version"@] == Json::Text(version),
        desktop_info(version, app_data_dir)->Object_0["app_data_dir"@] == Json::Text(
            app_data_dir,
        ),
        desktop_info(version, app_data_dir)->Object_0["desktop"@] == Json::Flag(true),
        desktop_info(version, app_data_dir)->Object_0["capabilities"@] == desktop_capabilities(),
{
    info_keys_differ();
    let members = desktop_info(version, app_data_dir)->Object_0;
    assert(members.dom() =~= set![
        "name"@,
        "version"@,
        "app_data_dir"@,
        "desktop"@,
        "capabilities"@,
    ]);
}

/// Builds the capabilities of the desktop build.
pub fn capabilities() -> (value: serde_json::Value)
    ensures
        json_of(value) == desktop_capabilities(),
{
    let mut members = no_members();
    put(&mut members, "file_system", flag(true));
    put(&mut members, "native_dialogs", flag(true));
    put(&mut members, "window_management", flag(true));
    object(members)
}

} // verus!
