//! The five optimization profiles: data, not behaviour.
use vstd::prelude::*;
use crate::types::Profile;

verus! {

broadcast use vstd::string::group_string_axioms;

/// The names of the services a profile disables.
pub open spec fn service_names(p: Profile) -> Seq<Seq<char>> {
    Seq::new(p.disable_services@.len(), |i: int| p.disable_services@[i]@)
}

/// `p` holds exactly these settings.
pub open spec fn profile_is(
    p: Profile,
    id: Seq<char>,
    name: Seq<char>,
    description: Seq<char>,
    switches: (bool, bool, bool, bool, bool, bool, bool, bool),
    services: Seq<Seq<char>>,
) -> bool {
    &&& p.id@ == id
    &&& p.name@ == name
    &&& p.description@ == description
    &&& p.power_ultimate == switches.0
    &&& p.usb_suspend_disable == switches.1
    &&& p.nagle_disable == switches.2
    &&& p.interrupt_mod_disable == switches.3
    &&& p.wake_on_lan_disable == switches.4
    &&& p.mouse_accel_disable == switches.5
    &&& p.process_priority_high == switches.6
    &&& p.background_apps_disable == switches.7
    &&& service_names(p) == services
}

pub open spec fn is_competitive_fps(p: Profile) -> bool {
    profile_is(
        p,
        "competitive_fps"@,
        "Competitive FPS"@,
        "Minimum latency, maximum debloat. For CS2, Valorant, Apex Legends."@,
        (true, true, true, true, true, true, true, true),
        seq!["SysMain"@, "DiagTrack"@, "XblAuthManager"@, "WSearch"@],
    )
}

pub open spec fn is_casual_gaming(p: Profile) -> bool {
    profile_is(
        p,
        "casual_gaming"@,
        "Casual Gaming"@,
        "Balanced performance for single-player and casual multiplayer."@,
        (false, true, true, false, true, true, false, true),
        seq!["DiagTrack"@, "XblAuthManager"@],
    )
}

pub open spec fn is_video_editing(p: Profile) -> bool {
    profile_is(
        p,
        "video_editing"@,
        "Video Editing"@,
        "Maximum throughput for Premiere, DaVinci Resolve, After Effects."@,
        (true, true, false, false, false, false, false, false),
        seq!["DiagTrack"@],
    )
}

pub open spec fn is_streaming(p: Profile) -> bool {
    profile_is(
        p,
        "streaming"@,
        "Streaming"@,
        "Gaming optimizations that keep OBS and streaming services alive."@,
        (false, true, true, false, true, true, true, false),
        seq!["DiagTrack"@, "XblAuthManager"@],
    )
}

pub open spec fn is_productivity(p: Profile) -> bool {
    profile_is(
        p,
        "productivity"@,
        "Productivity"@,
        "Balanced mode. Keeps search, indexing, and background services."@,
        (false, false, false, false, false, false, false, false),
        seq!["DiagTrack"@],
    )
}

/// An owned copy of a text.
pub fn s(val: &str) -> (r: String)
    ensures
        r@ == val@,
{
    val.to_string()
}

/// Owned copies of texts, in order.
pub fn sv(vals: &[&str]) -> (r: Vec<String>)
    ensures
        r@.len() == vals@.len(),
        forall|i: int| 0 <= i < vals@.len() ==> #[trigger] r@[i]@ == vals@[i]@,
{
    let mut r: Vec<String> = Vec::new();
    let mut i: usize = 0;
    while i < vals.len()
        invariant
            i <= vals@.len(),
            r@.len() == i,
            forall|k: int| 0 <= k < i ==> #[trigger] r@[k]@ == vals@[k]@,
        decreases vals@.len() - i,
    {
        r.push(s(vals[i]));
        i += 1;
    }
    r
}

pub fn competitive_fps() -> (p: Profile)
    ensures
        is_competitive_fps(p),
{
    let p = Profile {
        id: s("competitive_fps"),
        name: s("Competitive FPS"),
        description: s("Minimum latency, maximum debloat. For CS2, Valorant, Apex Legends."),
        power_ultimate: true,
        usb_suspend_disable: true,
        nagle_disable: true,
        interrupt_mod_disable: true,
        wake_on_lan_disable: true,
        mouse_accel_disable: true,
        disable_services: sv(&["SysMain", "DiagTrack", "XblAuthManager", "WSearch"]),
        process_priority_high: true,
        background_apps_disable: true,
    };
    assert(service_names(p) =~= seq!["SysMain"@, "DiagTrack"@, "XblAuthManager"@, "WSearch"@]);
    p
}

pub fn casual_gaming() -> (p: Profile)
    ensures
        is_casual_gaming(p),
{
    let p = Profile {
        id: s("casual_gaming"),
        name: s("Casual Gaming"),
        description: s("Balanced performance for single-player and casual multiplayer."),
        power_ultimate: false,
        usb_suspend_disable: true,
        nagle_disable: true,
        interrupt_mod_disable: false,
        wake_on_lan_disable: true,
        mouse_accel_disable: true,
        disable_services: sv(&["DiagTrack", "XblAuthManager"]),
        process_priority_high: false,
        background_apps_disable: true,
    };
    assert(service_names(p) =~= seq!["DiagTrack"@, "XblAuthManager"@]);
    p
}

pub fn video_editing() -> (p: Profile)
    ensures
        is_video_editing(p),
{
    let p = Profile {
        id: s("video_editing"),
        name: s("Video Editing"),
        description: s("Maximum throughput for Premiere, DaVinci Resolve, After Effects."),
        power_ultimate: true,
        usb_suspend_disable: true,
        nagle_disable: false,
        interrupt_mod_disable: false,
        wake_on_lan_disable: false,
        mouse_accel_disable: false,
        disable_services: sv(&["DiagTrack"]),
        process_priority_high: false,
        background_apps_disable: false,
    };
    assert(service_names(p) =~= seq!["DiagTrack"@]);
    p
}

pub fn streaming() -> (p: Profile)
    ensures
        is_streaming(p),
{
    let p = Profile {
        id: s("streaming"),
        name: s("Streaming"),
        description: s("Gaming optimizations that keep OBS and streaming services alive."),
        power_ultimate: false,
        usb_suspend_disable: true,
        nagle_disable: true,
        interrupt_mod_disable: false,
        wake_on_lan_disable: true,
        mouse_accel_disable: true,
        disable_services: sv(&["DiagTrack", "XblAuthManager"]),
        process_priority_high: true,
        background_apps_disable: false,
    };
    assert(service_names(p) =~= seq!["DiagTrack"@, "XblAuthManager"@]);
    p
}

pub fn productivity() -> (p: Profile)
    ensures
        is_productivity(p),
{
    let p = Profile {
        id: s("productivity"),
        name: s("Productivity"),
        description: s("Balanced mode. Keeps search, indexing, and background services."),
        power_ultimate: false,
        usb_suspend_disable: false,
        nagle_disable: false,
        interrupt_mod_disable: false,
        wake_on_lan_disable: false,
        mouse_accel_disable: false,
        disable_services: sv(&["DiagTrack"]),
        process_priority_high: false,
        background_apps_disable: false,
    };
    assert(service_names(p) =~= seq!["DiagTrack"@]);
    p
}

/// The five profiles have distinct ids.
pub proof fn lemma_profile_ids_distinct()
    ensures
        "competitive_fps"@ != "casual_gaming"@,
        "competitive_fps"@ != "video_editing"@,
        "competitive_fps"@ != "streaming"@,
        "competitive_fps"@ != "productivity"@,
        "casual_gaming"@ != "video_editing"@,
        "casual_gaming"@ != "streaming"@,
        "casual_gaming"@ != "productivity"@,
        "video_editing"@ != "streaming"@,
        "video_editing"@ != "productivity"@,
        "streaming"@ != "productivity"@,
{
    reveal_strlit("competitive_fps");
    reveal_strlit("casual_gaming");
    reveal_strlit("video_editing");
    reveal_strlit("streaming");
    reveal_strlit("productivity");
    assert("competitive_fps"@.len() == 15);
    assert("casual_gaming"@.len() == 13);
    assert("video_editing"@.len() == 13);
    assert("streaming"@.len() == 9);
    assert("productivity"@.len() == 12);
    assert("casual_gaming"@[0] != "video_editing"@[0]);
}

/// All profiles in display order: Competitive FPS, Casual Gaming, Video
/// Editing, Streaming, Productivity. Their ids are distinct, so a lookup by id
/// finds at most one.
pub fn all_profiles() -> (r: Vec<Profile>)
    ensures
        r@.len() == 5,
        is_competitive_fps(r@[0]),
        is_casual_gaming(r@[1]),
        is_video_editing(r@[2]),
        is_streaming(r@[3]),
        is_productivity(r@[4]),
        forall|i: int, j: int| 0 <= i < j < 5 ==> (#[trigger] r@[i]).id@ != (#[trigger] r@[j]).id@,
{
    proof {
        lemma_profile_ids_distinct();
    }
    let r = vec![competitive_fps(), casual_gaming(), video_editing(), streaming(), productivity()];
    r
}

} // verus!
