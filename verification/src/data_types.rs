use crate::error::Error;
use crate::timestamp::{spec_elapsed, Timestamp};
use vstd::pervasive::unreached;
use vstd::prelude::*;

verus! {

/// A normalized inbound message, as the webhook side hands it over.
#[derive(Debug, Clone)]
pub enum Message {
    Text(ReceivedMessage),
    Image(ReceivedMessage),
    StateInstance(String),
    Empty,
}

/// Sender and payload of one inbound text or image message.
/// For an image, `message` carries the download URL of the file.
#[derive(Debug, Clone)]
pub struct ReceivedMessage {
    pub chat_id: String,
    pub customer_name: String,
    pub message: String,
}

/// A customer's in-progress print order. The state is the variant:
/// no order exists outside these four.
#[derive(Debug, Clone, PartialEq, Eq)]
pub enum OrderState {
    /// The customer is uploading images; a paper-type prompt follows.
    FilesReceiving {
        chat_id: String,
        customer_name: String,
        files: Vec<String>,
        repeats: i32,
        last_msg_time: Timestamp,
        first_prompt_sent: bool,
    },
    /// The bot asked which paper type; awaiting the reply.
    PaperRequested {
        chat_id: String,
        customer_name: String,
        files: Vec<String>,
        repeats: i32,
        last_msg_time: Timestamp,
    },
    /// Paper type chosen; awaiting the size selection.
    SizeRequested {
        chat_id: String,
        customer_name: String,
        paper: String,
        files: Vec<String>,
        repeats: i32,
        last_msg_time: Timestamp,
    },
    /// Terminal: ready for handoff to fulfillment.
    SizeSelected {
        chat_id: String,
        customer_name: String,
        paper: String,
        size: String,
        price: i32,
        files: Vec<String>,
    },
}

/// Mathematical model of an order: the same four states, with the file
/// list as a sequence and the counters as unbounded integers.
pub ghost enum OrderView {
    FilesReceiving {
        chat_id: String,
        customer_name: String,
        files: Seq<String>,
        repeats: int,
        last_msg_time: int,
        first_prompt_sent: bool,
    },
    PaperRequested {
        chat_id: String,
        customer_name: String,
        files: Seq<String>,
        repeats: int,
        last_msg_time: int,
    },
    SizeRequested {
        chat_id: String,
        customer_name: String,
        paper: String,
        files: Seq<String>,
        repeats: int,
        last_msg_time: int,
    },
    SizeSelected {
        chat_id: String,
        customer_name: String,
        paper: String,
        size: String,
        price: int,
        files: Seq<String>,
    },
}

impl View for OrderState {
    type V = OrderView;

    open spec fn view(&self) -> OrderView {
        match *self {
            OrderState::FilesReceiving {
                chat_id,
                customer_name,
                files,
                repeats,
                last_msg_time,
                first_prompt_sent,
            } => OrderView::FilesReceiving {
                chat_id,
                customer_name,
                files: files@,
                repeats: repeats as int,
                last_msg_time: last_msg_time@,
                first_prompt_sent,
            },
            OrderState::PaperRequested { chat_id, customer_name, files, repeats, last_msg_time } => OrderView::PaperRequested {
                chat_id,
                customer_name,
                files: files@,
                repeats: repeats as int,
                last_msg_time: last_msg_time@,
            },
            OrderState::SizeRequested {
                chat_id,
                customer_name,
                paper,
                files,
                repeats,
                last_msg_time,
            } => OrderView::SizeRequested {
                chat_id,
                customer_name,
                paper,
                files: files@,
                repeats: repeats as int,
                last_msg_time: last_msg_time@,
            },
            OrderState::SizeSelected { chat_id, customer_name, paper, size, price, files } => OrderView::SizeSelected {
                chat_id,
                customer_name,
                paper,
                size,
                price: price as int,
                files: files@,
            },
        }
    }
}

impl OrderView {
    /// A terminal order admits no further workflow transition.
    pub open spec fn is_terminal(self) -> bool {
        self is SizeSelected
    }

    pub open spec fn chat_id(self) -> String {
        match self {
            OrderView::FilesReceiving { chat_id, .. } => chat_id,
            OrderView::PaperRequested { chat_id, .. } => chat_id,
            OrderView::SizeRequested { chat_id, .. } => chat_id,
            OrderView::SizeSelected { chat_id, .. } => chat_id,
        }
    }

    pub open spec fn customer_name(self) -> String {
        match self {
            OrderView::FilesReceiving { customer_name, .. } => customer_name,
            OrderView::PaperRequested { customer_name, .. } => customer_name,
            OrderView::SizeRequested { customer_name, .. } => customer_name,
            OrderView::SizeSelected { customer_name, .. } => customer_name,
        }
    }

    pub open spec fn files(self) -> Seq<String> {
        match self {
            OrderView::FilesReceiving { files, .. } => files,
            OrderView::PaperRequested { files, .. } => files,
            OrderView::SizeRequested { files, .. } => files,
            OrderView::SizeSelected { files, .. } => files,
        }
    }

    /// The repeat count; a terminal order reports zero.
    pub open spec fn repeats(self) -> int {
        match self {
            OrderView::FilesReceiving { repeats, .. } => repeats,
            OrderView::PaperRequested { repeats, .. } => repeats,
            OrderView::SizeRequested { repeats, .. } => repeats,
            OrderView::SizeSelected { .. } => 0,
        }
    }

    /// Time of the last activity; a terminal order reports zero.
    pub open spec fn last_msg_time(self) -> int {
        match self {
            OrderView::FilesReceiving { last_msg_time, .. } => last_msg_time,
            OrderView::PaperRequested { last_msg_time, .. } => last_msg_time,
            OrderView::SizeRequested { last_msg_time, .. } => last_msg_time,
            OrderView::SizeSelected { .. } => 0,
        }
    }

    /// The chosen paper type; the empty sequence while none is chosen
    /// yet.
    pub open spec fn paper(self) -> Seq<char> {
        match self {
            OrderView::SizeRequested { paper, .. } => paper@,
            OrderView::SizeSelected { paper, .. } => paper@,
            _ => Seq::<char>::empty(),
        }
    }

    /// Seconds of inactivity at clock reading `now`; zero for a terminal order.
    pub open spec fn elapsed(self, now: int) -> int {
        if self is SizeSelected {
            0
        } else {
            spec_elapsed(self.last_msg_time(), now)
        }
    }

    /// The paper-type prompt is still owed for this order.
    pub open spec fn needs_first_prompt(self) -> bool {
        self matches OrderView::FilesReceiving { first_prompt_sent, .. } && !first_prompt_sent
    }

    /// Every order past file intake carries at least one file; in
    /// particular an order without an uploaded image never becomes
    /// terminal. The handler preserves this by letting a paper choice
    /// through only once a file is on record.
    pub open spec fn files_invariant(self) -> bool {
        !(self is FilesReceiving) ==> self.files().len() > 0
    }
}

/// A fresh order opened by an image message: one file on record, the
/// paper-type prompt still owed.
pub open spec fn spec_from_img_msg(
    chat_id: String,
    customer_name: String,
    url: String,
    now: int,
) -> OrderView {
    OrderView::FilesReceiving {
        chat_id,
        customer_name,
        files: seq![url],
        repeats: 0,
        last_msg_time: now,
        first_prompt_sent: false,
    }
}

/// A fresh order opened by a text message: no files yet, and the first
/// prompt counts as already sent, since the customer began the exchange.
pub open spec fn spec_from_txt_msg(chat_id: String, customer_name: String, now: int) -> OrderView {
    OrderView::FilesReceiving {
        chat_id,
        customer_name,
        files: Seq::<String>::empty(),
        repeats: 0,
        last_msg_time: now,
        first_prompt_sent: true,
    }
}

/// Appending an image: while files are being received the file is added
/// and the timer refreshed; an awaiting-reply state reverts to
/// `FilesReceiving`, keeping every earlier file and discarding the
/// selection gathered so far; a terminal order is left unchanged.
pub open spec fn spec_add_image(pre: OrderView, url: String, now: int) -> OrderView {
    match pre {
        OrderView::FilesReceiving {
            chat_id,
            customer_name,
            files,
            repeats,
            last_msg_time: _,
            first_prompt_sent,
        } => OrderView::FilesReceiving {
            chat_id,
            customer_name,
            files: files.push(url),
            repeats,
            last_msg_time: now,
            first_prompt_sent,
        },
        OrderView::PaperRequested { chat_id, customer_name, files, .. } => OrderView::FilesReceiving {
            chat_id,
            customer_name,
            files: files.push(url),
            repeats: 0,
            last_msg_time: now,
            first_prompt_sent: false,
        },
        OrderView::SizeRequested { chat_id, customer_name, files, .. } => OrderView::FilesReceiving {
            chat_id,
            customer_name,
            files: files.push(url),
            repeats: 0,
            last_msg_time: now,
            first_prompt_sent: false,
        },
        OrderView::SizeSelected { .. } => pre,
    }
}

/// The forward transition out of `FilesReceiving`: the paper-type
/// question is now pending. Total on the model; other states are left
/// unchanged and the executable transition rejects them.
pub open spec fn spec_paper_requested(pre: OrderView, now: int) -> OrderView {
    match pre {
        OrderView::FilesReceiving { chat_id, customer_name, files, .. } => OrderView::PaperRequested {
            chat_id,
            customer_name,
            files,
            repeats: 0,
            last_msg_time: now,
        },
        _ => pre,
    }
}

/// Recording the paper choice: legal only while the paper question is
/// pending; the size question becomes pending.
pub open spec fn spec_set_paper(pre: OrderView, paper: String, now: int) -> OrderView {
    match pre {
        OrderView::PaperRequested { chat_id, customer_name, files, .. } => OrderView::SizeRequested {
            chat_id,
            customer_name,
            paper,
            files,
            repeats: 0,
            last_msg_time: now,
        },
        _ => pre,
    }
}

/// Recording the size choice: legal only while the size question is
/// pending; the order becomes terminal.
pub open spec fn spec_set_size(pre: OrderView, size: String, price: int) -> OrderView {
    match pre {
        OrderView::SizeRequested { chat_id, customer_name, paper, files, .. } => OrderView::SizeSelected {
            chat_id,
            customer_name,
            paper,
            size,
            price,
            files,
        },
        _ => pre,
    }
}

/// A reminder was sent: the repeat count rises by one and the timer is
/// refreshed; a terminal order is left unchanged.
pub open spec fn spec_requested(pre: OrderView, now: int) -> OrderView {
    match pre {
        OrderView::FilesReceiving {
            chat_id,
            customer_name,
            files,
            repeats,
            last_msg_time: _,
            first_prompt_sent,
        } => OrderView::FilesReceiving {
            chat_id,
            customer_name,
            files,
            repeats: repeats + 1,
            last_msg_time: now,
            first_prompt_sent,
        },
        OrderView::PaperRequested { chat_id, customer_name, files, repeats, last_msg_time: _ } => OrderView::PaperRequested {
            chat_id,
            customer_name,
            files,
            repeats: repeats + 1,
            last_msg_time: now,
        },
        OrderView::SizeRequested { chat_id, customer_name, paper, files, repeats, last_msg_time: _ } => OrderView::SizeRequested {
            chat_id,
            customer_name,
            paper,
            files,
            repeats: repeats + 1,
            last_msg_time: now,
        },
        OrderView::SizeSelected { .. } => pre,
    }
}

/// The paper-type prompt went out while files are being received.
pub open spec fn spec_first_prompt_sent(pre: OrderView) -> OrderView {
    match pre {
        OrderView::FilesReceiving {
            chat_id,
            customer_name,
            files,
            repeats,
            last_msg_time,
            first_prompt_sent: _,
        } => OrderView::FilesReceiving {
            chat_id,
            customer_name,
            files,
            repeats,
            last_msg_time,
            first_prompt_sent: true,
        },
        _ => pre,
    }
}

impl OrderState {
    /// Open a new order from the customer's first image, at the given
    /// clock reading.
    pub fn from_img_msg_at(msg: ReceivedMessage, now: Timestamp) -> (r: OrderState)
        ensures
            r@ == spec_from_img_msg(msg.chat_id, msg.customer_name, msg.message, now@),
    {
        let mut files: Vec<String> = Vec::new();
        files.push(msg.message);
        proof {
            assert(files@ =~= seq![msg.message]);
        }
        OrderState::FilesReceiving {
            chat_id: msg.chat_id,
            customer_name: msg.customer_name,
            files,
            repeats: 0,
            last_msg_time: now,
            first_prompt_sent: false,
        }
    }

    /// Open a new order from the customer's first image, against the
    /// current clock.
    pub fn from_img_msg(msg: ReceivedMessage) -> (r: OrderState)
        ensures
            exists|t: int|
                r@ == spec_from_img_msg(msg.chat_id, msg.customer_name, msg.message, t),
    {
        let now = Timestamp::now();
        Self::from_img_msg_at(msg, now)
    }

    /// Open a new order from the customer's first text message, at the
    /// given clock reading.
    pub fn from_txt_msg_at(msg: ReceivedMessage, now: Timestamp) -> (r: OrderState)
        ensures
            r@ == spec_from_txt_msg(msg.chat_id, msg.customer_name, now@),
    {
        let files: Vec<String> = Vec::new();
        proof {
            assert(files@ =~= Seq::<String>::empty());
        }
        OrderState::FilesReceiving {
            chat_id: msg.chat_id,
            customer_name: msg.customer_name,
            files,
            repeats: 0,
            last_msg_time: now,
            first_prompt_sent: true,
        }
    }

    /// Open a new order from the customer's first text message, against
    /// the current clock.
    pub fn from_txt_msg(msg: ReceivedMessage) -> (r: OrderState)
        ensures
            exists|t: int| r@ == spec_from_txt_msg(msg.chat_id, msg.customer_name, t),
    {
        let now = Timestamp::now();
        Self::from_txt_msg_at(msg, now)
    }

    pub fn get_chat_id(&self) -> (r: String)
        ensures
            r == self@.chat_id(),
    {
        match self {
            OrderState::FilesReceiving { chat_id, .. } => chat_id.clone(),
            OrderState::PaperRequested { chat_id, .. } => chat_id.clone(),
            OrderState::SizeRequested { chat_id, .. } => chat_id.clone(),
            OrderState::SizeSelected { chat_id, .. } => chat_id.clone(),
        }
    }

    /// The chosen paper type; the empty string while none is chosen yet.
    pub fn get_paper(&self) -> (r: &str)
        ensures
            r@ == self@.paper(),
    {
        proof {
            reveal_strlit("");
        }
        match self {
            OrderState::FilesReceiving { .. } => "",
            OrderState::PaperRequested { .. } => "",
            OrderState::SizeRequested { paper, .. } => paper.as_str(),
            OrderState::SizeSelected { paper, .. } => paper.as_str(),
        }
    }

    /// Seconds of inactivity at the given clock reading.
    pub fn last_time_sec_at(&self, now: Timestamp) -> (r: u64)
        ensures
            r as int == self@.elapsed(now@),
    {
        match self {
            OrderState::FilesReceiving { last_msg_time, .. } => last_msg_time.elapsed_at(now),
            OrderState::PaperRequested { last_msg_time, .. } => last_msg_time.elapsed_at(now),
            OrderState::SizeRequested { last_msg_time, .. } => last_msg_time.elapsed_at(now),
            OrderState::SizeSelected { .. } => 0,
        }
    }

    /// Seconds of inactivity against the current clock.
    pub fn last_time_sec(&self) -> (r: u64)
        ensures
            exists|t: int| r as int == self@.elapsed(t),
            self@ is SizeSelected ==> r == 0,
    {
        let now = Timestamp::now();
        self.last_time_sec_at(now)
    }

    pub fn repeats(&self) -> (r: i32)
        ensures
            r as int == self@.repeats(),
    {
        match self {
            OrderState::FilesReceiving { repeats, .. } => *repeats,
            OrderState::PaperRequested { repeats, .. } => *repeats,
            OrderState::SizeRequested { repeats, .. } => *repeats,
            OrderState::SizeSelected { .. } => 0,
        }
    }

    /// Append an image at the given clock reading; see `spec_add_image`
    /// for the state-by-state effect.
    pub fn add_image_at(&mut self, url: String, now: Timestamp)
        ensures
            final(self)@ == spec_add_image(old(self)@, url, now@),
    {
        let mut cur = OrderState::FilesReceiving {
            chat_id: String::new(),
            customer_name: String::new(),
            files: Vec::new(),
            repeats: 0,
            last_msg_time: now,
            first_prompt_sent: false,
        };
        core::mem::swap(self, &mut cur);
        let next = match cur {
            OrderState::FilesReceiving {
                chat_id,
                customer_name,
                mut files,
                repeats,
                last_msg_time: _,
                first_prompt_sent,
            } => {
                files.push(url);
                OrderState::FilesReceiving {
                    chat_id,
                    customer_name,
                    files,
                    repeats,
                    last_msg_time: now,
                    first_prompt_sent,
                }
            },
            OrderState::PaperRequested { chat_id, customer_name, mut files, .. } => {
                files.push(url);
                OrderState::FilesReceiving {
                    chat_id,
                    customer_name,
                    files,
                    repeats: 0,
                    last_msg_time: now,
                    first_prompt_sent: false,
                }
            },
            OrderState::SizeRequested { chat_id, customer_name, mut files, .. } => {
                files.push(url);
                OrderState::FilesReceiving {
                    chat_id,
                    customer_name,
                    files,
                    repeats: 0,
                    last_msg_time: now,
                    first_prompt_sent: false,
                }
            },
            OrderState::SizeSelected { chat_id, customer_name, paper, size, price, files } => OrderState::SizeSelected {
                chat_id,
                customer_name,
                paper,
                size,
                price,
                files,
            },
        };
        *self = next;
    }

    /// Append an image against the current clock.
    pub fn add_image(&mut self, url: String)
        ensures
            exists|t: int| final(self)@ == spec_add_image(old(self)@, url, t),
    {
        let now = Timestamp::now();
        self.add_image_at(url, now);
    }

    pub fn have_files(&self) -> (r: bool)
        ensures
            r == (self@.files().len() > 0),
    {
        match self {
            OrderState::FilesReceiving { files, .. } => !files.is_empty(),
            OrderState::PaperRequested { files, .. } => !files.is_empty(),
            OrderState::SizeRequested { files, .. } => !files.is_empty(),
            OrderState::SizeSelected { files, .. } => !files.is_empty(),
        }
    }

    pub fn files_count(&self) -> (r: usize)
        ensures
            r == self@.files().len(),
    {
        match self {
            OrderState::FilesReceiving { files, .. } => files.len(),
            OrderState::PaperRequested { files, .. } => files.len(),
            OrderState::SizeRequested { files, .. } => files.len(),
            OrderState::SizeSelected { files, .. } => files.len(),
        }
    }

    /// Move to `PaperRequested` at the given clock reading; legal only
    /// from `FilesReceiving`, and any other state is returned to the
    /// caller as a `WrongState` error, the order unchanged.
    pub fn into_order_with_paper_requested_at(self, now: Timestamp) -> (r: Result<
        OrderState,
        Error,
    >)
        ensures
            self@ is FilesReceiving ==> (r matches Ok(o) && o@ == spec_paper_requested(
                self@,
                now@,
            )),
            !(self@ is FilesReceiving) ==> r === Err(Error::OrderWrongState),
    {
        match self {
            OrderState::FilesReceiving { chat_id, customer_name, files, .. } => Ok(
                OrderState::PaperRequested {
                    chat_id,
                    customer_name,
                    files,
                    repeats: 0,
                    last_msg_time: now,
                },
            ),
            _ => Err(Error::OrderWrongState),
        }
    }

    /// Move to `PaperRequested` against the current clock.
    pub fn into_order_with_paper_requested(self) -> (r: Result<OrderState, Error>)
        ensures
            self@ is FilesReceiving ==> (r matches Ok(o) && exists|t: int|
                o@ == spec_paper_requested(self@, t)),
            !(self@ is FilesReceiving) ==> r === Err(Error::OrderWrongState),
    {
        let now = Timestamp::now();
        self.into_order_with_paper_requested_at(now)
    }

    /// Record the paper choice at the given clock reading; legal only
    /// from `PaperRequested`.
    pub fn into_order_with_paper_at(self, paper: String, now: Timestamp) -> (r: Result<
        OrderState,
        Error,
    >)
        ensures
            self@ is PaperRequested ==> (r matches Ok(o) && o@ == spec_set_paper(
                self@,
                paper,
                now@,
            )),
            !(self@ is PaperRequested) ==> r === Err(Error::OrderWrongState),
    {
        match self {
            OrderState::PaperRequested { chat_id, customer_name, files, .. } => Ok(
                OrderState::SizeRequested {
                    chat_id,
                    customer_name,
                    paper,
                    files,
                    repeats: 0,
                    last_msg_time: now,
                },
            ),
            _ => Err(Error::OrderWrongState),
        }
    }

    /// Record the paper choice against the current clock.
    pub fn into_order_with_paper(self, paper: String) -> (r: Result<OrderState, Error>)
        ensures
            self@ is PaperRequested ==> (r matches Ok(o) && exists|t: int|
                o@ == spec_set_paper(self@, paper, t)),
            !(self@ is PaperRequested) ==> r === Err(Error::OrderWrongState),
    {
        let now = Timestamp::now();
        self.into_order_with_paper_at(paper, now)
    }

    /// Record the size choice and close the intake; legal only from
    /// `SizeRequested`.
    pub fn into_order_with_size(self, size: String, price: i32) -> (r: Result<OrderState, Error>)
        ensures
            self@ is SizeRequested ==> (r matches Ok(o) && o@ == spec_set_size(
                self@,
                size,
                price as int,
            )),
            !(self@ is SizeRequested) ==> r === Err(Error::OrderWrongState),
    {
        match self {
            OrderState::SizeRequested { chat_id, customer_name, paper, files, .. } => Ok(
                OrderState::SizeSelected { chat_id, customer_name, paper, size, price, files },
            ),
            _ => Err(Error::OrderWrongState),
        }
    }

    /// Note that a reminder went out, at the given clock reading: the
    /// repeat count rises by one and the timer restarts. A terminal
    /// order is left unchanged.
    pub fn requested_at(&mut self, now: Timestamp)
        requires
            !old(self)@.is_terminal() ==> old(self)@.repeats() < i32::MAX,
        ensures
            final(self)@ == spec_requested(old(self)@, now@),
    {
        match self {
            OrderState::FilesReceiving { repeats, last_msg_time, .. } => {
                *repeats = *repeats + 1;
                *last_msg_time = now;
            },
            OrderState::PaperRequested { repeats, last_msg_time, .. } => {
                *repeats = *repeats + 1;
                *last_msg_time = now;
            },
            OrderState::SizeRequested { repeats, last_msg_time, .. } => {
                *repeats = *repeats + 1;
                *last_msg_time = now;
            },
            OrderState::SizeSelected { .. } => {},
        }
    }

    /// Note that a reminder went out, against the current clock.
    pub fn requested(&mut self)
        requires
            !old(self)@.is_terminal() ==> old(self)@.repeats() < i32::MAX,
        ensures
            exists|t: int| final(self)@ == spec_requested(old(self)@, t),
    {
        let now = Timestamp::now();
        self.requested_at(now);
    }

    /// Note that the paper-type prompt went out; meaningful only while
    /// files are being received.
    pub fn set_first_prompt_has_been_requested(&mut self)
        ensures
            final(self)@ == spec_first_prompt_sent(old(self)@),
    {
        if let OrderState::FilesReceiving { first_prompt_sent, .. } = self {
            *first_prompt_sent = true;
        }
    }
}

/// A chain of image arrivals, applied oldest first; `times[i]` is the
/// clock reading at which `urls[i]` arrived.
pub open spec fn spec_add_images(o: OrderView, urls: Seq<String>, times: Seq<int>) -> OrderView
    recommends
        urls.len() == times.len(),
    decreases urls.len(),
{
    if urls.len() == 0 {
        o
    } else {
        spec_add_images(spec_add_image(o, urls[0], times[0]), urls.drop_first(), times.drop_first())
    }
}

/// Files only ever grow, one per `add_image` call, in arrival order: a
/// chain of image arrivals on an open order appends exactly those urls
/// to the files already on record.
pub proof fn lemma_files_append_only(o: OrderView, urls: Seq<String>, times: Seq<int>)
    requires
        !o.is_terminal(),
        urls.len() == times.len(),
    ensures
        spec_add_images(o, urls, times).files() == o.files() + urls,
        spec_add_images(o, urls, times).files().len() == o.files().len() + urls.len(),
    decreases urls.len(),
{
    if urls.len() == 0 {
        assert(o.files() + urls =~= o.files());
    } else {
        let o1 = spec_add_image(o, urls[0], times[0]);
        lemma_files_append_only(o1, urls.drop_first(), times.drop_first());
        assert(o.files().push(urls[0]) + urls.drop_first() =~= o.files() + urls);
    }
}

/// Each reminder raises the repeat count by exactly one, and every
/// forward transition out of an eligible state resets it to zero.
pub proof fn lemma_repeat_count_discipline(
    o: OrderView,
    paper: String,
    size: String,
    price: int,
    now: int,
)
    ensures
        !o.is_terminal() ==> spec_requested(o, now).repeats() == o.repeats() + 1,
        o is FilesReceiving ==> spec_paper_requested(o, now).repeats() == 0,
        o is PaperRequested ==> spec_set_paper(o, paper, now).repeats() == 0,
        o is SizeRequested ==> spec_set_size(o, size, price).repeats() == 0,
{
}

/// No transition ever drops a file: an image arrival keeps the files
/// already on record as a prefix of the new record, and every other
/// transition carries the record over unchanged.
pub proof fn lemma_files_never_shrink(
    o: OrderView,
    url: String,
    paper: String,
    size: String,
    price: int,
    now: int,
)
    ensures
        o.files().is_prefix_of(spec_add_image(o, url, now).files()),
        spec_requested(o, now).files() == o.files(),
        spec_paper_requested(o, now).files() == o.files(),
        spec_set_paper(o, paper, now).files() == o.files(),
        spec_set_size(o, size, price).files() == o.files(),
        spec_first_prompt_sent(o).files() == o.files(),
{
    if !o.is_terminal() {
        assert(spec_add_image(o, url, now).files() == o.files().push(url));
        assert(o.files() =~= o.files().push(url).subrange(0, o.files().len() as int));
    } else {
        assert(o.files() =~= o.files().subrange(0, o.files().len() as int));
    }
}

/// The flat projection of a terminal order that fulfillment receives.
#[derive(Debug, Clone)]
pub struct OrderMessage {
    pub phone: String,
    pub name: String,
    pub paper_type: String,
    pub paper_size: String,
    pub price: i32,
    pub files: Vec<String>,
}

/// Mathematical model of the fulfillment payload.
pub ghost struct OrderMessageView {
    pub phone: Seq<char>,
    pub name: String,
    pub paper_type: String,
    pub paper_size: String,
    pub price: int,
    pub files: Seq<String>,
}

impl View for OrderMessage {
    type V = OrderMessageView;

    open spec fn view(&self) -> OrderMessageView {
        OrderMessageView {
            phone: self.phone@,
            name: self.name,
            paper_type: self.paper_type,
            paper_size: self.paper_size,
            price: self.price as int,
            files: self.files@,
        }
    }
}

/// Position of the first `'@'` in `s`, or `s.len()` when there is none.
pub open spec fn first_at_index(s: Seq<char>) -> int
    decreases s.len(),
{
    if s.len() == 0 {
        0
    } else if s[0] == '@' {
        0
    } else {
        1 + first_at_index(s.drop_first())
    }
}

/// The phone part of a chat identifier: everything before the first `'@'`.
pub open spec fn spec_phone(s: Seq<char>) -> Seq<char> {
    s.take(first_at_index(s))
}

/// `first_at_index` is pinned down by its two defining properties: no
/// `'@'` lies before it, and it either marks an `'@'` or the end.
pub proof fn lemma_first_at_index(s: Seq<char>, i: int)
    requires
        0 <= i <= s.len(),
        forall|j: int| 0 <= j < i ==> s[j] != '@',
        i < s.len() ==> s[i] == '@',
    ensures
        first_at_index(s) == i,
    decreases s.len(),
{
    if s.len() == 0 {
    } else if s[0] == '@' {
        assert(i == 0);
    } else {
        assert(i >= 1) by {
            if i == 0 {
                assert(s[0] == '@');
            }
        }
        let t = s.drop_first();
        assert(forall|j: int| 0 <= j < i - 1 ==> t[j] == s[j + 1] && t[j] != '@');
        assert(i - 1 < t.len() ==> t[i - 1] == s[i]);
        lemma_first_at_index(t, i - 1);
    }
}

/// The phone prefix of a chat identifier, cut at the first `'@'`.
fn phone_prefix(chat_id: &str) -> (r: String)
    ensures
        r@ == spec_phone(chat_id@),
{
    let n = chat_id.unicode_len();
    let mut i: usize = 0;
    while i < n && chat_id.get_char(i) != '@'
        invariant
            i <= n,
            n == chat_id@.len(),
            forall|j: int| 0 <= j < i ==> chat_id@[j] != '@',
        decreases n - i,
    {
        i = i + 1;
    }
    proof {
        lemma_first_at_index(chat_id@, i as int);
    }
    let p = chat_id.substring_char(0, i);
    p.to_owned()
}

/// The projection of a terminal order: phone parsed from the chat
/// identifier, and the gathered name, paper, size, price and files.
pub open spec fn spec_order_message(o: OrderView) -> Option<OrderMessageView> {
    match o {
        OrderView::SizeSelected { chat_id, customer_name, paper, size, price, files } => Some(
            OrderMessageView {
                phone: spec_phone(chat_id@),
                name: customer_name,
                paper_type: paper,
                paper_size: size,
                price,
                files,
            },
        ),
        _ => None,
    }
}

impl OrderMessage {
    /// Project a terminal order into the fulfillment payload. Calling
    /// this on a non-terminal order is a programming error, which the
    /// precondition rules out.
    pub fn from_order(order: OrderState) -> (r: OrderMessage)
        requires
            order@ is SizeSelected,
        ensures
            Some(r@) == spec_order_message(order@),
    {
        match order {
            OrderState::SizeSelected { chat_id, customer_name, paper, size, price, files } => {
                let phone = phone_prefix(chat_id.as_str());
                OrderMessage {
                    phone,
                    name: customer_name,
                    paper_type: paper,
                    paper_size: size,
                    price,
                    files,
                }
            },
            _ => unreached(),
        }
    }
}

} // verus!
