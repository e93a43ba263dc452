//! Mailboxes: a bounded first-in first-out queue of signal bitmaps per
//! mailbox, with one receiving and one sending process, and the notification
//! that each application registered for it.
use vstd::prelude::*;
use crate::mloi::{
    MK_BITMAP_t, MK_Index_t, MK_MAILBOX_ID_u, MK_MAILBOX_COM_MAIN_ID, MK_MAILBOX_MAIN_COM_ID,
    MK_MAILBOX_MAIN_MGT_ID, MK_MAILBOX_MGT_MAIN_ID, MK_MAILBOX_SIGNAL_LIMIT,
};
use crate::process::{AppId, COM_PROCESS_INDEX, MAIN_PROCESS_INDEX, MGT_PROCESS_INDEX, NUM_PROCS};

verus! {

/// A notification that an application registered: where to enter the
/// application and what to hand it.
#[derive(Clone, Copy, Debug, PartialEq, Eq, Structural)]
pub struct Callback {
    /// The application to notify.
    pub app_id: AppId,
    /// Value that the application asked to get back.
    pub appdata: usize,
    /// Address of the function to enter.
    pub fn_ptr: usize,
}

/// What one application keeps in a mailbox: its notification, if it
/// registered one.
#[derive(Clone, Copy, Debug, PartialEq, Eq, Structural)]
pub struct MbData {
    /// The registered notification.
    pub callback: Option<Callback>,
}

impl Default for MbData {
    fn default() -> (data: MbData)
        ensures
            data == (MbData { callback: None }),
    {
        MbData { callback: None }
    }
}

/// A mailbox.
#[derive(Debug)]
pub struct mbox {
    /// Composite identifier.
    pub mailbox_id: MK_MAILBOX_ID_u,
    /// Index of the process that receives.
    pub owner_process_index: MK_Index_t,
    /// Index of the process that sends.
    pub sender_process_index: MK_Index_t,
    /// Pending signal bitmaps, oldest first.
    pub signals: Vec<MK_BITMAP_t>,
    /// Number of bitmaps that the queue holds at most.
    pub capacity: usize,
    /// One region per application, by application index.
    pub data: Vec<MbData>,
}

/// A mailbox as the contracts see it.
pub struct MailboxView {
    /// Composite identifier.
    pub mailbox_id: MK_MAILBOX_ID_u,
    /// Index of the process that receives.
    pub owner_process_index: MK_Index_t,
    /// Index of the process that sends.
    pub sender_process_index: MK_Index_t,
    /// Pending signal bitmaps, oldest first.
    pub pending: Seq<MK_BITMAP_t>,
    /// Number of bitmaps that the queue holds at most.
    pub capacity: usize,
    /// The region of each application, by application index.
    pub data: Seq<MbData>,
}

impl MailboxView {
    /// Whether the queue turns a further bitmap away.
    pub open spec fn is_full(self) -> bool {
        self.pending.len() >= self.capacity
    }

    /// The queue never holds more than its capacity.
    pub open spec fn wf(self) -> bool {
        self.pending.len() <= self.capacity
    }

    /// The mailbox after an attempt to put a bitmap behind the pending
    /// ones: a full queue stays as it was.
    pub open spec fn with_signal(self, bitmap: MK_BITMAP_t) -> MailboxView {
        if self.is_full() {
            self
        } else {
            MailboxView { pending: self.pending.push(bitmap), ..self }
        }
    }

    /// The oldest pending bitmap, or 0 where nothing is pending.
    pub open spec fn oldest(self) -> MK_BITMAP_t {
        if self.pending.len() > 0 {
            self.pending[0]
        } else {
            0
        }
    }

    /// The mailbox after its oldest pending bitmap was taken out: an empty
    /// queue stays empty.
    pub open spec fn without_oldest(self) -> MailboxView {
        if self.pending.len() > 0 {
            MailboxView { pending: self.pending.subrange(1, self.pending.len() as int), ..self }
        } else {
            self
        }
    }

    /// Whether the application has a region in this mailbox.
    pub open spec fn has_region(self, app_id: AppId) -> bool {
        app_id.index < self.data.len()
    }

    /// The mailbox after one application registered a notification, or
    /// dropped it; an application without a region changes nothing.
    pub open spec fn with_callback(self, app_id: AppId, callback: Option<Callback>) -> MailboxView {
        if self.has_region(app_id) {
            MailboxView { data: self.data.update(app_id.index as int, MbData { callback }), ..self }
        } else {
            self
        }
    }

    /// The notification that a new signal triggers: the one that the sending
    /// application registered, if the sender is known and registered one.
    pub open spec fn notification(self, sender: Option<AppId>) -> Option<Callback> {
        match sender {
            Some(app) => if self.has_region(app) {
                self.data[app.index as int].callback
            } else {
                None
            },
            None => None,
        }
    }

    /// A mailbox as it is right after creation: nothing pending, nothing
    /// registered, room for the default number of bitmaps.
    pub open spec fn created(
        mb_id: MK_MAILBOX_ID_u,
        owner_pi: MK_Index_t,
        sender_pi: MK_Index_t,
    ) -> MailboxView {
        MailboxView {
            mailbox_id: mb_id,
            owner_process_index: owner_pi,
            sender_process_index: sender_pi,
            pending: Seq::empty(),
            capacity: MK_MAILBOX_SIGNAL_LIMIT,
            data: no_registrations(),
        }
    }
}

impl View for mbox {
    type V = MailboxView;

    open spec fn view(&self) -> MailboxView {
        MailboxView {
            mailbox_id: self.mailbox_id,
            owner_process_index: self.owner_process_index,
            sender_process_index: self.sender_process_index,
            pending: self.signals@,
            capacity: self.capacity,
            data: self.data@,
        }
    }
}

/// The regions of a mailbox in which nothing is registered.
pub open spec fn no_registrations() -> Seq<MbData> {
    Seq::new(NUM_PROCS as nat, |i: int| MbData { callback: None })
}

fn empty_regions() -> (data: Vec<MbData>)
    ensures
        data@ == no_registrations(),
{
    let mut data: Vec<MbData> = Vec::new();
    let mut i: usize = 0;
    while i < NUM_PROCS
        invariant
            i <= NUM_PROCS,
            data@.len() == i,
            forall|j: int| 0 <= j < i ==> data@[j] == (MbData { callback: None }),
        decreases NUM_PROCS - i,
    {
        data.push(MbData { callback: None });
        i += 1;
    }
    assert(data@ =~= no_registrations());
    data
}

impl mbox {
    /// An empty mailbox with the given identifier, receiver and sender.
    pub fn new(mb_id: MK_MAILBOX_ID_u, owner_pi: MK_Index_t, sender_pi: MK_Index_t) -> (mailbox:
        mbox)
        ensures
            mailbox@ == MailboxView::created(mb_id, owner_pi, sender_pi),
    {
        mbox {
            mailbox_id: mb_id,
            owner_process_index: owner_pi,
            sender_process_index: sender_pi,
            signals: Vec::new(),
            capacity: MK_MAILBOX_SIGNAL_LIMIT,
            data: empty_regions(),
        }
    }

    /// The mailbox of the communication process, to which the main process
    /// sends.
    pub fn create_com_mb() -> (mailbox: mbox)
        ensures
            mailbox@ == MailboxView::created(
                MK_MAILBOX_COM_MAIN_ID,
                COM_PROCESS_INDEX,
                MAIN_PROCESS_INDEX,
            ),
    {
        mbox::new(MK_MAILBOX_COM_MAIN_ID, COM_PROCESS_INDEX, MAIN_PROCESS_INDEX)
    }

    /// The mailbox of the main process, to which the management process
    /// sends.
    pub fn create_main_mgt_mb() -> (mailbox: mbox)
        ensures
            mailbox@ == MailboxView::created(
                MK_MAILBOX_MAIN_MGT_ID,
                MAIN_PROCESS_INDEX,
                MGT_PROCESS_INDEX,
            ),
    {
        mbox::new(MK_MAILBOX_MAIN_MGT_ID, MAIN_PROCESS_INDEX, MGT_PROCESS_INDEX)
    }

    /// The mailbox of the management process, to which the main process
    /// sends.
    pub fn create_mgt_mb() -> (mailbox: mbox)
        ensures
            mailbox@ == MailboxView::created(
                MK_MAILBOX_MGT_MAIN_ID,
                MGT_PROCESS_INDEX,
                MAIN_PROCESS_INDEX,
            ),
    {
        mbox::new(MK_MAILBOX_MGT_MAIN_ID, MGT_PROCESS_INDEX, MAIN_PROCESS_INDEX)
    }

    /// The mailbox of the main process, to which the communication process
    /// sends.
    pub fn create_main_com_mb() -> (mailbox: mbox)
        ensures
            mailbox@ == MailboxView::created(
                MK_MAILBOX_MAIN_COM_ID,
                MAIN_PROCESS_INDEX,
                COM_PROCESS_INDEX,
            ),
    {
        mbox::new(MK_MAILBOX_MAIN_COM_ID, MAIN_PROCESS_INDEX, COM_PROCESS_INDEX)
    }

    /// The composite identifier.
    pub fn get_mb_id(&self) -> (id: MK_MAILBOX_ID_u)
        ensures
            id == self@.mailbox_id,
    {
        self.mailbox_id
    }

    /// The index of the process that receives.
    pub fn get_owner_proc_i(&self) -> (index: MK_Index_t)
        ensures
            index == self@.owner_process_index,
    {
        self.owner_process_index
    }

    /// The index of the process that sends.
    pub fn get_sender_proc_i(&self) -> (index: MK_Index_t)
        ensures
            index == self@.sender_process_index,
    {
        self.sender_process_index
    }

    /// Puts a bitmap behind the pending ones, as it is. A full queue turns
    /// it away and stays as it was; the result says whether the bitmap was
    /// taken.
    pub fn add_sig(&mut self, new_sigs_bitmap: MK_BITMAP_t) -> (taken: bool)
        ensures
            taken == !old(self)@.is_full(),
            final(self)@ == old(self)@.with_signal(new_sigs_bitmap),
    {
        if self.signals.len() >= self.capacity {
            false
        } else {
            self.signals.push(new_sigs_bitmap);
            true
        }
    }

    /// Takes the oldest pending bitmap out of the queue; an empty queue
    /// gives 0 and stays empty.
    pub fn get_sig(&mut self) -> (retrieved_sig: MK_BITMAP_t)
        ensures
            retrieved_sig == old(self)@.oldest(),
            final(self)@ == old(self)@.without_oldest(),
    {
        if self.signals.len() == 0 {
            0
        } else {
            let retrieved_sig = self.signals.remove(0);
            assert(self.signals@ =~= old(self).signals@.subrange(
                1,
                old(self).signals@.len() as int,
            ));
            retrieved_sig
        }
    }

    /// Drops every pending bitmap.
    pub fn clear_sig(&mut self)
        ensures
            final(self)@ == (MailboxView { pending: Seq::empty(), ..old(self)@ }),
    {
        self.signals.clear();
    }

    /// The notification to schedule for a new signal, given the identity of
    /// the sending application as far as the platform knows it.
    pub fn fired(&self, sender: Option<AppId>) -> (callback: Option<Callback>)
        ensures
            callback == self@.notification(sender),
    {
        match sender {
            Some(app) => {
                if app.index < self.data.len() {
                    self.data[app.index].callback
                } else {
                    None
                }
            },
            None => None,
        }
    }

    /// Records the notification of one application, or drops it where
    /// `callback` is `None`. An application without a region in this mailbox
    /// is turned away and nothing changes; the result says whether the
    /// registration was recorded.
    pub fn register(&mut self, app_id: AppId, callback: Option<Callback>) -> (recorded: bool)
        ensures
            recorded == old(self)@.has_region(app_id),
            final(self)@ == old(self)@.with_callback(app_id, callback),
    {
        if app_id.index < self.data.len() {
            self.data.set(app_id.index, MbData { callback });
            true
        } else {
            false
        }
    }
}

/// Bitmaps leave a mailbox in the order in which they came, each as it was
/// sent: after three are taken by a mailbox with nothing pending, three
/// reads give them back in that order, a fourth gives 0, and the mailbox is
/// empty again.
pub proof fn lemma_mailbox_is_fifo(
    mailbox: MailboxView,
    b1: MK_BITMAP_t,
    b2: MK_BITMAP_t,
    b3: MK_BITMAP_t,
)
    requires
        mailbox.pending.len() == 0,
        mailbox.capacity >= 3,
    ensures
        ({
            let sent = mailbox.with_signal(b1).with_signal(b2).with_signal(b3);
            &&& sent.pending == seq![b1, b2, b3]
            &&& sent.oldest() == b1
            &&& sent.without_oldest().oldest() == b2
            &&& sent.without_oldest().without_oldest().oldest() == b3
            &&& sent.without_oldest().without_oldest().without_oldest().oldest() == 0
            &&& sent.without_oldest().without_oldest().without_oldest() == mailbox
        }),
{
    let sent = mailbox.with_signal(b1).with_signal(b2).with_signal(b3);
    assert(sent.pending =~= seq![b1, b2, b3]);
    assert(sent.without_oldest().pending =~= seq![b2, b3]);
    assert(sent.without_oldest().without_oldest().pending =~= seq![b3]);
    assert(sent.without_oldest().without_oldest().without_oldest().pending =~= mailbox.pending);
}

/// In general: whatever is pending, a bitmap that is taken comes out after
/// everything that was pending before it, and reading never reorders what
/// stays behind.
pub proof fn lemma_mailbox_keeps_order(mailbox: MailboxView, bitmap: MK_BITMAP_t)
    requires
        !mailbox.is_full(),
    ensures
        mailbox.pending.len() > 0 ==> mailbox.with_signal(bitmap).oldest() == mailbox.oldest()
            && mailbox.with_signal(bitmap).without_oldest() == mailbox.without_oldest().with_signal(
            bitmap,
        ),
        mailbox.pending.len() == 0 ==> mailbox.with_signal(bitmap).oldest() == bitmap
            && mailbox.with_signal(bitmap).without_oldest() == mailbox,
        mailbox.wf() ==> mailbox.with_signal(bitmap).wf(),
{
    let sent = mailbox.with_signal(bitmap);
    if mailbox.pending.len() > 0 {
        assert(sent.without_oldest().pending =~= mailbox.without_oldest().with_signal(
            bitmap,
        ).pending);
    } else {
        assert(sent.without_oldest().pending =~= mailbox.pending);
    }
}

/// An empty mailbox answers a read with 0 and stays as it is.
pub proof fn lemma_empty_mailbox_reads_zero(mailbox: MailboxView)
    requires
        mailbox.pending.len() == 0,
    ensures
        mailbox.oldest() == 0,
        mailbox.without_oldest() == mailbox,
{
}

} // verus!
