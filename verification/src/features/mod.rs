//! Feature modules: each turns signal values and the passage of time into effects.

pub mod alarm_history;
pub mod auto_high_beam;
pub mod auto_relock;
pub mod brake_reverse_lamps;
pub mod cabin_trunk_release;
pub mod child_lock;
pub mod delayed_accessory;
pub mod dome_switch;
pub mod door_open_assist;
pub mod door_trim_button;
pub mod doors;
pub mod double_lock_release;
pub mod entry_history;
pub mod entry_session;
pub mod exterior_trunk_button;
pub mod farewell;
pub mod fog_lamps;
pub mod follow_me_home;
pub mod hazard_lighting;
pub mod hex;
pub mod key_lost_warning;
pub mod key_search;
pub mod key_search_arbiter;
pub mod key_search_laws;
pub mod keypad_lock;
pub mod lamp_history;
pub mod lock_cycle_laws;
pub mod lock_feedback;
pub mod lock_reply;
pub mod lost_pk_scan;
pub mod manual_horn;
pub mod manual_lighting;
pub mod mirror_adjust;
pub mod mirror_fold;
pub mod nfc_entry;
pub mod nfc_laws;
pub mod panic_alarm;
pub mod passive_entry;
pub mod permission_laws;
pub mod power;
pub mod search_history;
pub mod switch_history;
pub mod wakeup_laws;
