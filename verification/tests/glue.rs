//! The input translator, the layout engine, and the plain data types
//! around the viewport.

use scrollie::config::{Account, Config, UiConfig};
use scrollie::geometry::{ItemExtent, Rect};
use scrollie::input::{translate_input, InputEvent};
use scrollie::layout::stack_items;
use scrollie::platform::{EmoteFlags, EmoteMetadata, EmotePlatform, FLAG_HIDDEN, FLAG_OVERLAYING};
use scrollie::seventv::{CloseCode, EmoteSize};
use scrollie::tabs::TabsState;

#[test]
fn wheel_lines_scroll_by_eighty_per_line() {
    assert_eq!(
        translate_input(InputEvent::WheelLines { y: 2 }, true, 100, false),
        Some(-160)
    );
    assert_eq!(
        translate_input(InputEvent::WheelLines { y: -1 }, true, 100, false),
        Some(80)
    );
    assert_eq!(
        translate_input(InputEvent::WheelLines { y: 2 }, false, 100, false),
        None
    );
}

#[test]
fn wheel_pixels_scroll_one_to_one() {
    assert_eq!(
        translate_input(InputEvent::WheelPixels { y: 35 }, true, 100, false),
        Some(-35)
    );
    assert_eq!(
        translate_input(InputEvent::WheelPixels { y: 35 }, false, 100, false),
        None
    );
}

#[test]
fn page_keys_scroll_by_the_viewport_height() {
    assert_eq!(
        translate_input(InputEvent::PageDown, false, 123, false),
        Some(123)
    );
    assert_eq!(
        translate_input(InputEvent::PageUp, false, 123, false),
        Some(-123)
    );
}

#[test]
fn natural_scrolling_flips_the_sign() {
    assert_eq!(
        translate_input(InputEvent::WheelLines { y: 2 }, true, 100, true),
        Some(160)
    );
    assert_eq!(
        translate_input(InputEvent::PageDown, true, 100, true),
        Some(-100)
    );
}

#[test]
fn irrelevant_events_map_to_nothing() {
    assert_eq!(translate_input(InputEvent::Other, true, 100, false), None);
    assert_eq!(translate_input(InputEvent::Other, true, 100, true), None);
}

#[test]
fn stacking_places_each_item_below_the_previous() {
    let items = vec![
        ItemExtent { width: 30, height: 10 },
        ItemExtent { width: 80, height: 25 },
        ItemExtent { width: 50, height: 5 },
    ];
    let keys = vec![11, 22, 33];
    let (table, content) = stack_items(&items, &keys);

    assert_eq!(table.len(), 3);
    assert_eq!(table[0].key, 11);
    assert_eq!(table[0].bounds, Rect { x: 0, y: 0, width: 30, height: 10 });
    assert_eq!(table[1].key, 22);
    assert_eq!(table[1].bounds, Rect { x: 0, y: 10, width: 80, height: 25 });
    assert_eq!(table[2].key, 33);
    assert_eq!(table[2].bounds, Rect { x: 0, y: 35, width: 50, height: 5 });
    assert_eq!(content, Rect { x: 0, y: 0, width: 80, height: 40 });
}

#[test]
fn platform_names() {
    assert_eq!(EmotePlatform::SevenTv.as_str(), "7TV");
    assert_eq!(EmotePlatform::FrankerFaceZ.as_str(), "FFZ");
    assert_eq!(EmotePlatform::BetterTtv.as_str(), "BTTV");
    assert_eq!(EmotePlatform::Twitch.as_str(), "Twitch");
}

#[test]
fn emote_flags_are_independent_bits() {
    let flags = EmoteFlags::from_bits(FLAG_OVERLAYING);
    assert!(flags.overlaying());
    assert!(!flags.hidden());

    let flags = EmoteFlags::from_bits(FLAG_OVERLAYING | FLAG_HIDDEN);
    assert!(flags.overlaying());
    assert!(flags.hidden());

    assert!(!EmoteFlags::empty().overlaying());
    assert!(!EmoteFlags::empty().hidden());
}

#[test]
fn emote_metadata_carries_its_fields() {
    let meta = EmoteMetadata::new(
        "catJAM".to_string(),
        EmoteFlags::empty(),
        "01ABC".to_string(),
        EmotePlatform::SevenTv,
    );
    assert_eq!(meta.original_name, "catJAM");
    assert_eq!(meta.id, "01ABC");
    assert_eq!(meta.platform, EmotePlatform::SevenTv);
}

#[test]
fn emote_sizes_parse_and_name_their_files() {
    assert_eq!(EmoteSize::from_digit('1'), Some(EmoteSize::OneX));
    assert_eq!(EmoteSize::from_digit('2'), Some(EmoteSize::TwoX));
    assert_eq!(EmoteSize::from_digit('3'), Some(EmoteSize::ThreeX));
    assert_eq!(EmoteSize::from_digit('4'), Some(EmoteSize::FourX));
    assert_eq!(EmoteSize::from_digit('5'), None);
    assert_eq!(EmoteSize::from_digit('x'), None);

    assert_eq!(EmoteSize::OneX.file_name(), "1x.webp");
    assert_eq!(EmoteSize::FourX.file_name(), "4x.webp");
}

#[test]
fn close_codes_round_trip() {
    let codes = [
        CloseCode::ServerError,
        CloseCode::UnknownOperation,
        CloseCode::InvalidPayload,
        CloseCode::AuthFailure,
        CloseCode::AlreadyIdentified,
        CloseCode::RateLimit,
        CloseCode::Restart,
        CloseCode::Maintenance,
        CloseCode::Timeout,
        CloseCode::AlreadySubscribed,
        CloseCode::NotSubscribed,
        CloseCode::InsufficientPrivilege,
        CloseCode::Reconnect,
        CloseCode::NormalClosure,
    ];
    for (i, code) in codes.iter().enumerate() {
        assert_eq!(code.code(), 4000 + i as u16);
        assert_eq!(CloseCode::from_code(code.code()), Some(*code));
    }
    assert_eq!(CloseCode::from_code(3999), None);
    assert_eq!(CloseCode::from_code(4014), None);
}

#[test]
fn config_defaults_are_empty() {
    let config = Config::default();
    assert!(config.accounts.is_empty());
    assert!(config.chats.is_empty());
    assert!(!config.ui.natural_scrolling);
    assert!(!UiConfig::default().natural_scrolling);

    let account = Account::new("julia".to_string(), "tok".to_string());
    assert_eq!(account.username, "julia");
    assert_eq!(account.token, "tok");
}

#[test]
fn tab_selection_follows_validity() {
    let mut tabs: TabsState<String> = TabsState::new(None);
    assert_eq!(tabs.selected, None);

    let changed = tabs.ensure_selection(false, Some("general".to_string()));
    assert!(changed);
    assert_eq!(tabs.selected.as_deref(), Some("general"));

    let changed = tabs.ensure_selection(true, Some("other".to_string()));
    assert!(!changed);
    assert_eq!(tabs.selected.as_deref(), Some("general"));

    tabs.switch_to_tab("memes".to_string());
    assert_eq!(tabs.selected.as_deref(), Some("memes"));
}
