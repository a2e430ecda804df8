use im_installer::buttons::{derive_button_state, next_label_text, ButtonState};
use im_installer::installing_page::{InstallingPage, InstallingPageEvent};
use im_installer::notify::{error_notification, Notification};
use im_installer::page::TabPage;

#[test]
fn pages_follow_each_other_in_order() {
    assert_eq!(TabPage::SelectFormat.next(), Some(TabPage::SelectPath));
    assert_eq!(TabPage::SelectPath.next(), Some(TabPage::Confirm));
    assert_eq!(TabPage::Confirm.next(), Some(TabPage::Installing));
    assert_eq!(TabPage::Installing.next(), Some(TabPage::Done));
    assert_eq!(TabPage::Done.next(), None);
}

#[test]
fn going_back_stops_at_the_first_page() {
    assert_eq!(TabPage::SelectFormat.prev(), TabPage::SelectFormat);
    assert_eq!(TabPage::SelectPath.prev(), TabPage::SelectFormat);
    assert_eq!(TabPage::Confirm.prev(), TabPage::SelectPath);
}

#[test]
fn button_state_is_a_function_of_page_and_selection() {
    assert_eq!(
        derive_button_state(TabPage::SelectFormat, false),
        ButtonState { show_prev: false, show_next: true, next_enabled: false, next_label: String::from("Next") }
    );
    assert_eq!(
        derive_button_state(TabPage::SelectPath, true),
        ButtonState { show_prev: true, show_next: true, next_enabled: true, next_label: String::from("Next") }
    );
    assert_eq!(
        derive_button_state(TabPage::Confirm, true),
        ButtonState { show_prev: true, show_next: true, next_enabled: true, next_label: String::from("Install") }
    );
    assert_eq!(
        derive_button_state(TabPage::Installing, true),
        ButtonState { show_prev: false, show_next: false, next_enabled: true, next_label: String::from("Next") }
    );
    assert_eq!(
        derive_button_state(TabPage::Done, false),
        ButtonState { show_prev: false, show_next: true, next_enabled: false, next_label: String::from("Finish") }
    );
}

#[test]
fn next_label_is_install_finish_or_next() {
    assert_eq!(next_label_text(TabPage::SelectFormat), "Next");
    assert_eq!(next_label_text(TabPage::SelectPath), "Next");
    assert_eq!(next_label_text(TabPage::Confirm), "Install");
    assert_eq!(next_label_text(TabPage::Installing), "Next");
    assert_eq!(next_label_text(TabPage::Done), "Finish");
}

#[test]
fn error_notification_appends_the_cause_on_a_new_line() {
    assert_eq!(
        error_notification("Failed to write CLAP file", "Permission denied (os error 13)"),
        Notification {
            title: String::from("Error"),
            message: String::from("Failed to write CLAP file\nPermission denied (os error 13)"),
        }
    );
    assert_eq!(
        error_notification("", ""),
        Notification { title: String::from("Error"), message: String::from("\n") }
    );
}

#[test]
fn installing_page_first_asks_for_confirmation() {
    let page = InstallingPage::new();
    assert_eq!(page.subtitle(), "确认安装？");
    assert!(page.show_install_btn());
}

#[test]
fn installing_page_hides_its_button_once_installation_begins() {
    let mut page = InstallingPage::new();
    page.event(InstallingPageEvent::Install);
    assert_eq!(page.subtitle(), "正在安装...");
    assert!(!page.show_install_btn());
}

#[test]
fn installing_page_says_when_installation_is_complete() {
    let mut page = InstallingPage::new();
    page.event(InstallingPageEvent::Install);
    page.event(InstallingPageEvent::Finish);
    assert_eq!(page.subtitle(), "安装完成");
    assert!(!page.show_install_btn());

    let mut direct = InstallingPage::new();
    direct.event(InstallingPageEvent::Finish);
    assert_eq!(direct, page);
}
