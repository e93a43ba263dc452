use vpp::mailbox::{mbox, Callback, MbData};
use vpp::mloi::MK_MAILBOX_SIGNAL_LIMIT;
use vpp::process::{AppId, NUM_PROCS};

fn callback_of(app: usize) -> Callback {
    Callback { app_id: AppId::new(app), appdata: 0x20 + app, fn_ptr: 0x4000_0000 + app }
}

#[test]
fn a_new_mailbox_is_empty() {
    let mut mailbox = mbox::new(0x4064, 3, 1);
    assert_eq!(mailbox.get_mb_id(), 0x4064);
    assert_eq!(mailbox.get_owner_proc_i(), 3);
    assert_eq!(mailbox.get_sender_proc_i(), 1);
    assert!(mailbox.signals.is_empty());
    assert_eq!(mailbox.capacity, MK_MAILBOX_SIGNAL_LIMIT);
    assert_eq!(mailbox.data.len(), NUM_PROCS);
    assert!(mailbox.data.iter().all(|region| region.callback.is_none()));
    assert_eq!(mailbox.get_sig(), 0);
    assert_eq!(MbData::default(), MbData { callback: None });
}

#[test]
fn the_fixed_mailboxes_join_the_right_processes() {
    let mgt = mbox::create_mgt_mb();
    assert_eq!((mgt.get_mb_id(), mgt.get_owner_proc_i(), mgt.get_sender_proc_i()), (0x8001, 0, 2));
    let com = mbox::create_com_mb();
    assert_eq!((com.get_mb_id(), com.get_owner_proc_i(), com.get_sender_proc_i()), (0x8000, 1, 2));
    let main_mgt = mbox::create_main_mgt_mb();
    assert_eq!(
        (main_mgt.get_mb_id(), main_mgt.get_owner_proc_i(), main_mgt.get_sender_proc_i()),
        (0x4001, 2, 0)
    );
    let main_com = mbox::create_main_com_mb();
    assert_eq!(
        (main_com.get_mb_id(), main_com.get_owner_proc_i(), main_com.get_sender_proc_i()),
        (0x4000, 2, 1)
    );
}

#[test]
fn signals_come_out_in_the_order_they_went_in() {
    let mut mailbox = mbox::create_mgt_mb();
    assert!(mailbox.add_sig(0x10));
    assert!(mailbox.add_sig(0x08));
    assert!(mailbox.add_sig(0x8000_0000));
    assert_eq!(mailbox.signals, vec![0x10, 0x08, 0x8000_0000]);
    assert_eq!(mailbox.get_sig(), 0x10);
    assert_eq!(mailbox.get_sig(), 0x08);
    assert_eq!(mailbox.get_sig(), 0x8000_0000);
    assert_eq!(mailbox.get_sig(), 0);
    assert_eq!(mailbox.get_sig(), 0);
}

#[test]
fn equal_signals_are_not_merged() {
    let mut mailbox = mbox::create_mgt_mb();
    assert!(mailbox.add_sig(0x08));
    assert!(mailbox.add_sig(0x08));
    assert_eq!(mailbox.signals.len(), 2);
    assert_eq!(mailbox.get_sig(), 0x08);
    assert_eq!(mailbox.get_sig(), 0x08);
    assert_eq!(mailbox.get_sig(), 0);
}

#[test]
fn a_full_mailbox_turns_signals_away() {
    let mut mailbox = mbox::create_com_mb();
    for i in 0..MK_MAILBOX_SIGNAL_LIMIT {
        assert!(mailbox.add_sig(1 + i as u32));
    }
    assert!(!mailbox.add_sig(0xFFFF));
    assert_eq!(mailbox.signals.len(), MK_MAILBOX_SIGNAL_LIMIT);
    assert_eq!(mailbox.get_sig(), 1);
    assert!(mailbox.add_sig(0xFFFF));
    for i in 1..MK_MAILBOX_SIGNAL_LIMIT {
        assert_eq!(mailbox.get_sig(), 1 + i as u32);
    }
    assert_eq!(mailbox.get_sig(), 0xFFFF);
    assert_eq!(mailbox.get_sig(), 0);
}

#[test]
fn a_mailbox_without_room_takes_nothing() {
    let mut mailbox = mbox::new(0x4064, 0, 1);
    mailbox.capacity = 0;
    assert!(!mailbox.add_sig(1));
    assert!(mailbox.signals.is_empty());
    mailbox.capacity = 1;
    assert!(mailbox.add_sig(1));
    assert!(!mailbox.add_sig(2));
    assert_eq!(mailbox.signals, vec![1]);
}

#[test]
fn clearing_drops_every_pending_signal() {
    let mut mailbox = mbox::create_main_com_mb();
    mailbox.add_sig(1);
    mailbox.add_sig(2);
    mailbox.clear_sig();
    assert!(mailbox.signals.is_empty());
    assert_eq!(mailbox.get_sig(), 0);
    assert_eq!(mailbox.get_mb_id(), 0x4000);
}

#[test]
fn a_notification_is_kept_per_application() {
    let mut mailbox = mbox::create_mgt_mb();
    assert!(mailbox.register(AppId::new(2), Some(callback_of(2))));
    assert!(mailbox.register(AppId::new(0), Some(callback_of(0))));
    assert_eq!(mailbox.fired(Some(AppId::new(2))), Some(callback_of(2)));
    assert_eq!(mailbox.fired(Some(AppId::new(0))), Some(callback_of(0)));
    assert_eq!(mailbox.fired(Some(AppId::new(1))), None);
    assert_eq!(mailbox.fired(None), None);
    assert_eq!(mailbox.fired(Some(AppId::new(NUM_PROCS))), None);
    assert!(mailbox.register(AppId::new(2), None));
    assert_eq!(mailbox.fired(Some(AppId::new(2))), None);
    assert_eq!(mailbox.fired(Some(AppId::new(0))), Some(callback_of(0)));
}

#[test]
fn an_application_without_a_region_cannot_register() {
    let mut mailbox = mbox::create_mgt_mb();
    assert!(!mailbox.register(AppId::new(NUM_PROCS), Some(callback_of(9))));
    assert!(!mailbox.register(AppId::new(usize::MAX), Some(callback_of(9))));
    assert!(mailbox.data.iter().all(|region| region.callback.is_none()));
}
