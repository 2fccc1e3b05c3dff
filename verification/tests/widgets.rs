use fictional_potato::colors::{AppColorBackground, AppColorForeground, AppColorMain, AppColorStatus};
use fictional_potato::components::input::{marker, status_line};
use fictional_potato::screens::app_screen;
use fictional_potato::task::Task;

#[test]
fn required_field_without_error_shows_a_star() {
    assert_eq!(marker(false, Some(true)), "*");
    assert_eq!(status_line(None, Some(true)), "* ");
}

#[test]
fn field_with_error_shows_a_dash_and_the_error() {
    assert_eq!(marker(true, Some(true)), "-");
    assert_eq!(marker(true, Some(false)), "-");
    assert_eq!(marker(true, None), "-");
    assert_eq!(status_line(Some("Username taken"), Some(true)), "- Username taken");
    assert_eq!(status_line(Some("bad"), None), "- bad");
    assert_eq!(status_line(Some(""), Some(true)), "- ");
}

#[test]
fn optional_field_without_error_shows_nothing() {
    assert_eq!(marker(false, Some(false)), "");
    assert_eq!(marker(false, None), "");
    assert_eq!(status_line(None, Some(false)), " ");
    assert_eq!(status_line(None, None), " ");
}

#[test]
fn main_palette() {
    assert_eq!(AppColorMain::Primary.rgb8(), (180, 190, 254));
    assert_eq!(AppColorMain::Secondary.rgb8(), (137, 180, 250));
    assert_eq!(AppColorMain::Tertiary.rgb8(), (116, 199, 236));
    assert_eq!(AppColorMain::AccentPrimary.rgb8(), (203, 166, 247));
    assert_eq!(AppColorMain::AccentSecondary.rgb8(), (245, 194, 231));
    assert_eq!(AppColorMain::AccentTertiary.rgb8(), (242, 205, 205));
}

#[test]
fn status_palette() {
    assert_eq!(AppColorStatus::Success.rgb8(), (166, 227, 161));
    assert_eq!(AppColorStatus::Warning.rgb8(), (249, 226, 175));
    assert_eq!(AppColorStatus::Failure.rgb8(), (243, 139, 168));
}

#[test]
fn background_palette() {
    assert_eq!(AppColorBackground::Primary.rgb8(), (17, 17, 27));
    assert_eq!(AppColorBackground::Secondary.rgb8(), (24, 24, 37));
    assert_eq!(AppColorBackground::Tertiary.rgb8(), (30, 30, 46));
    assert_eq!(AppColorBackground::SurfacePrimary.rgb8(), (49, 50, 68));
    assert_eq!(AppColorBackground::SurfaceSecondary.rgb8(), (69, 71, 90));
    assert_eq!(AppColorBackground::SurfaceTertiary.rgb8(), (88, 91, 112));
}

#[test]
fn foreground_palette() {
    assert_eq!(AppColorForeground::Primary.rgb8(), (205, 214, 244));
    assert_eq!(AppColorForeground::Secondary.rgb8(), (186, 194, 222));
    assert_eq!(AppColorForeground::Tertiary.rgb8(), (166, 173, 200));
    assert_eq!(AppColorForeground::SubtextPrimary.rgb8(), (147, 153, 178));
    assert_eq!(AppColorForeground::SubtextSecondary.rgb8(), (127, 132, 156));
    assert_eq!(AppColorForeground::SubtextTertiary.rgb8(), (108, 112, 134));
}

#[test]
fn palette_entries_compare_by_variant() {
    assert_eq!(AppColorMain::Primary, AppColorMain::Primary);
    assert_ne!(AppColorMain::Primary, AppColorMain::Secondary);
    assert_ne!(AppColorStatus::Success, AppColorStatus::Failure);
}

#[test]
fn home_screen_starts_idle_and_ignores_its_event() {
    let mut state = app_screen::State::new();
    assert!(!state.is_loading);
    assert!(!app_screen::State::default().is_loading);
    let task = app_screen::update(&mut state, app_screen::Message::DoSomething);
    assert!(matches!(task, Task::Nothing));
    assert!(!state.is_loading);
}
