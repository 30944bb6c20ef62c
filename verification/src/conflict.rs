//! Conflict detection between the configured hotkey slots, and the
//! validated hotkey-update pipeline.

use vstd::prelude::*;
use vstd::string::*;
use crate::hotkey::{
    case_variant, hotkey_parses, lemma_same_under_case_change, modifier_token_ok, same_hotkey,
    HotkeyConfig,
};
use crate::settings::{AppSettings, SettingsManager};
use crate::text::str_eq;

verus! {

/// The three named hotkey slots, in their fixed check order.
#[derive(Clone, Copy, Debug, PartialEq, Eq, Structural)]
pub enum HotkeySlot {
    Toggle,
    Hold,
    PasteLast,
}

/// The slot name used for exclusion, as it appears on the command surface.
pub open spec fn slot_exclude_name(slot: HotkeySlot) -> Seq<char> {
    match slot {
        HotkeySlot::Toggle => "toggle"@,
        HotkeySlot::Hold => "hold"@,
        HotkeySlot::PasteLast => "paste_last"@,
    }
}

/// The conflict message for a slot, naming it in human-readable form.
pub open spec fn conflict_msg(display: Seq<char>) -> Seq<char> {
    "This shortcut is already used for the "@ + display + " hotkey"@
}

/// The candidate collides with the toggle slot: that slot is not excluded
/// and holds the same hotkey.
pub open spec fn collides_toggle(h: HotkeyConfig, s: AppSettings, exclude: Seq<char>) -> bool {
    exclude != "toggle"@ && same_hotkey(h, s.toggle_hotkey)
}

/// The candidate collides with the hold slot.
pub open spec fn collides_hold(h: HotkeyConfig, s: AppSettings, exclude: Seq<char>) -> bool {
    exclude != "hold"@ && same_hotkey(h, s.hold_hotkey)
}

/// The candidate collides with the paste-last slot.
pub open spec fn collides_paste_last(h: HotkeyConfig, s: AppSettings, exclude: Seq<char>) -> bool {
    exclude != "paste_last"@ && same_hotkey(h, s.paste_last_hotkey)
}

/// The candidate collides with no slot other than the excluded one.
pub open spec fn validation_ok(h: HotkeyConfig, s: AppSettings, exclude: Seq<char>) -> bool {
    !collides_toggle(h, s, exclude) && !collides_hold(h, s, exclude) && !collides_paste_last(
        h,
        s,
        exclude,
    )
}

/// Builds the conflict message around the human-readable slot name.
fn conflict_message(display: &str) -> (r: String)
    ensures
        r@ == conflict_msg(display@),
{
    let mut m = String::from_str("This shortcut is already used for the ");
    m.append(display);
    m.append(" hotkey");
    m
}

/// Checks the candidate hotkey against every slot other than the excluded
/// one, in the order toggle, hold, paste-last, and fails on the first slot
/// holding the same hotkey, naming that slot in the error.
pub fn validate_no_duplicate_shortcut(
    new_hotkey: &HotkeyConfig,
    current_settings: &AppSettings,
    exclude_type: &str,
) -> (r: Result<(), String>)
    ensures
        r is Ok <==> validation_ok(*new_hotkey, *current_settings, exclude_type@),
        collides_toggle(*new_hotkey, *current_settings, exclude_type@) ==> r is Err
            && (r->Err_0)@ == conflict_msg("toggle"@),
        !collides_toggle(*new_hotkey, *current_settings, exclude_type@) && collides_hold(
            *new_hotkey,
            *current_settings,
            exclude_type@,
        ) ==> r is Err && (r->Err_0)@ == conflict_msg("hold"@),
        !collides_toggle(*new_hotkey, *current_settings, exclude_type@) && !collides_hold(
            *new_hotkey,
            *current_settings,
            exclude_type@,
        ) && collides_paste_last(*new_hotkey, *current_settings, exclude_type@) ==> r is Err
            && (r->Err_0)@ == conflict_msg("paste last"@),
{
    if !str_eq(exclude_type, "toggle") && new_hotkey.is_same_as(&current_settings.toggle_hotkey) {
        return Err(conflict_message("toggle"));
    }
    if !str_eq(exclude_type, "hold") && new_hotkey.is_same_as(&current_settings.hold_hotkey) {
        return Err(conflict_message("hold"));
    }
    if !str_eq(exclude_type, "paste_last") && new_hotkey.is_same_as(
        &current_settings.paste_last_hotkey,
    ) {
        return Err(conflict_message("paste last"));
    }
    Ok(())
}

/// The settings after writing `hotkey` into `slot`.
pub open spec fn with_slot(s: AppSettings, slot: HotkeySlot, hotkey: HotkeyConfig) -> AppSettings {
    match slot {
        HotkeySlot::Toggle => AppSettings { toggle_hotkey: hotkey, ..s },
        HotkeySlot::Hold => AppSettings { hold_hotkey: hotkey, ..s },
        HotkeySlot::PasteLast => AppSettings { paste_last_hotkey: hotkey, ..s },
    }
}

/// The validated hotkey-update pipeline: checks the candidate against the
/// other two slots, checks that it parses in the global-hotkey vocabulary,
/// and only then writes it into its slot. On any failure the settings are
/// left unchanged and the validation error is handed back.
pub fn update_hotkey_with_validation(
    settings_manager: &mut SettingsManager,
    hotkey: HotkeyConfig,
    slot: HotkeySlot,
) -> (r: Result<(), String>)
    ensures
        r is Ok <==> validation_ok(hotkey, old(settings_manager).settings, slot_exclude_name(slot))
            && hotkey_parses(hotkey),
        r is Ok ==> final(settings_manager).settings == with_slot(
            old(settings_manager).settings,
            slot,
            hotkey,
        ),
        r is Err ==> *final(settings_manager) == *old(settings_manager),
        collides_toggle(hotkey, old(settings_manager).settings, slot_exclude_name(slot)) ==> r
            is Err && (r->Err_0)@ == conflict_msg("toggle"@),
        !collides_toggle(hotkey, old(settings_manager).settings, slot_exclude_name(slot))
            && collides_hold(hotkey, old(settings_manager).settings, slot_exclude_name(slot))
            ==> r is Err && (r->Err_0)@ == conflict_msg("hold"@),
        !collides_toggle(hotkey, old(settings_manager).settings, slot_exclude_name(slot))
            && !collides_hold(hotkey, old(settings_manager).settings, slot_exclude_name(slot))
            && collides_paste_last(
            hotkey,
            old(settings_manager).settings,
            slot_exclude_name(slot),
        ) ==> r is Err && (r->Err_0)@ == conflict_msg("paste last"@),
        validation_ok(hotkey, old(settings_manager).settings, slot_exclude_name(slot)) && (
        exists|i: int|
            0 <= i < hotkey.modifiers@.len() && !modifier_token_ok(hotkey.modifiers@[i]@)) ==> r
            is Err && (r->Err_0)@ == "shortcut has an unrecognized modifier"@,
        validation_ok(hotkey, old(settings_manager).settings, slot_exclude_name(slot)) && (
        forall|i: int|
            0 <= i < hotkey.modifiers@.len() ==> modifier_token_ok(hotkey.modifiers@[i]@))
            && !hotkey_parses(hotkey) ==> r is Err && (r->Err_0)@
            == "shortcut has an unrecognized key"@,
{
    let exclude: &str = match slot {
        HotkeySlot::Toggle => "toggle",
        HotkeySlot::Hold => "hold",
        HotkeySlot::PasteLast => "paste_last",
    };
    proof {
        assert(exclude@ == slot_exclude_name(slot));
    }
    let validated = validate_no_duplicate_shortcut(&hotkey, settings_manager.get(), exclude);
    if let Err(e) = validated {
        return Err(e);
    }
    if let Err(e) = hotkey.to_shortcut() {
        return Err(e);
    }
    match slot {
        HotkeySlot::Toggle => settings_manager.update_toggle_hotkey(hotkey),
        HotkeySlot::Hold => settings_manager.update_hold_hotkey(hotkey),
        HotkeySlot::PasteLast => settings_manager.update_paste_last_hotkey(hotkey),
    }
    Ok(())
}

/// No two of the three hotkey slots hold the same hotkey.
pub open spec fn slots_distinct(s: AppSettings) -> bool {
    &&& !same_hotkey(s.toggle_hotkey, s.hold_hotkey)
    &&& !same_hotkey(s.toggle_hotkey, s.paste_last_hotkey)
    &&& !same_hotkey(s.hold_hotkey, s.paste_last_hotkey)
}

/// Law: the validated update path keeps the slots distinct. Writing a
/// candidate that passed conflict validation for its slot into that slot
/// cannot make two slots equal. (Wholesale replacement and the raw slot
/// mutators bypass validation by design and give no such promise.)
pub proof fn lemma_validated_update_keeps_slots_distinct(
    s: AppSettings,
    slot: HotkeySlot,
    hotkey: HotkeyConfig,
)
    requires
        slots_distinct(s),
        validation_ok(hotkey, s, slot_exclude_name(slot)),
    ensures
        slots_distinct(with_slot(s, slot, hotkey)),
{
    reveal_strlit("toggle");
    reveal_strlit("hold");
    reveal_strlit("paste_last");
    assert("toggle"@.len() == 6 && "hold"@.len() == 4 && "paste_last"@.len() == 10);
}

/// The factory-default settings satisfy the slot-distinctness invariant.
pub proof fn lemma_default_settings_slots_distinct(s: AppSettings)
    requires
        crate::hotkey::is_default_toggle(s.toggle_hotkey),
        crate::hotkey::is_default_hold(s.hold_hotkey),
        crate::hotkey::is_default_paste_last(s.paste_last_hotkey),
    ensures
        slots_distinct(s),
{
    crate::hotkey::lemma_defaults_mutually_distinct(
        s.toggle_hotkey,
        s.hold_hotkey,
        s.paste_last_hotkey,
    );
}

/// Law: conflict validation is case-insensitive. A candidate that differs
/// from the hotkey of a non-excluded slot only in ASCII case still counts
/// as a duplicate, so validation cannot succeed.
pub proof fn lemma_validation_case_insensitive(
    candidate: HotkeyConfig,
    settings: AppSettings,
    exclude: Seq<char>,
)
    requires
        (exclude != "toggle"@ && case_variant(candidate, settings.toggle_hotkey)) || (exclude
            != "hold"@ && case_variant(candidate, settings.hold_hotkey)) || (exclude
            != "paste_last"@ && case_variant(candidate, settings.paste_last_hotkey)),
    ensures
        !validation_ok(candidate, settings, exclude),
{
    if exclude != "toggle"@ && case_variant(candidate, settings.toggle_hotkey) {
        lemma_same_under_case_change(candidate, settings.toggle_hotkey);
    } else if exclude != "hold"@ && case_variant(candidate, settings.hold_hotkey) {
        lemma_same_under_case_change(candidate, settings.hold_hotkey);
    } else {
        lemma_same_under_case_change(candidate, settings.paste_last_hotkey);
    }
}

} // verus!
