use crate::data_types::{
    spec_add_image, spec_first_prompt_sent, spec_from_img_msg, spec_from_txt_msg,
    spec_order_message, spec_paper_requested, spec_requested, spec_set_paper, spec_set_size,
    Message, OrderMessage, OrderMessageView, OrderState, OrderView, ReceivedMessage,
};
use crate::timestamp::Timestamp;
use vstd::pervasive::unreached;
use vstd::prelude::*;

verus! {

/// Which prompt the transport should (re-)send to the customer.
#[derive(Clone, Copy, Debug, PartialEq, Eq, Structural)]
pub enum PromptKind {
    /// Ask which paper type to print on.
    Paper,
    /// Ask which size to print at.
    Size,
    /// Ask the customer to send the files for the order.
    SendFiles,
}

/// An outbound effect the caller must perform after a handling step.
#[derive(Debug, Clone)]
pub enum Outbound {
    /// Send (or re-send) a prompt to the customer.
    Prompt(PromptKind),
    /// Hand the finished order to fulfillment.
    Handoff(OrderMessage),
}

/// Mathematical model of an outbound effect.
pub ghost enum OutboundView {
    Prompt(PromptKind),
    Handoff(OrderMessageView),
}

impl View for Outbound {
    type V = OutboundView;

    open spec fn view(&self) -> OutboundView {
        match *self {
            Outbound::Prompt(k) => OutboundView::Prompt(k),
            Outbound::Handoff(m) => OutboundView::Handoff(m@),
        }
    }
}

/// The result of handling one inbound message for one customer: the
/// stored order afterwards (`None`: absent, or removed by a handoff)
/// and at most one outbound send.
#[derive(Debug)]
pub struct Step {
    pub order: Option<OrderState>,
    pub send: Option<Outbound>,
}

/// Mathematical model of a handling step's result.
pub ghost struct StepView {
    pub order: Option<OrderView>,
    pub send: Option<OutboundView>,
}

impl View for Step {
    type V = StepView;

    open spec fn view(&self) -> StepView {
        StepView { order: opt_order_view(self.order), send: opt_send_view(self.send) }
    }
}

/// The model of an optional stored order.
pub open spec fn opt_order_view(o: Option<OrderState>) -> Option<OrderView> {
    match o {
        Some(s) => Some(s@),
        None => None,
    }
}

/// The model of an optional outbound effect.
pub open spec fn opt_send_view(s: Option<Outbound>) -> Option<OutboundView> {
    match s {
        Some(e) => Some(e@),
        None => None,
    }
}

/// How the prompt catalog resolved the customer's text against the
/// current state's vocabulary. The catalog itself (paper names, the
/// size and price table) lives outside this crate.
#[derive(Debug, Clone)]
pub enum TextResolution {
    /// The text names a paper type.
    Paper(String),
    /// The text names a print size, at the catalog's price.
    Size(String, i32),
    /// The text matches nothing expected in the current state.
    Unrecognized,
}

/// The prompt that re-asks the question pending in the given state:
/// files are requested until one arrives, then the paper type, then the
/// size. Meaningless for a terminal order, which awaits no reply.
pub open spec fn spec_current_prompt(o: OrderView) -> PromptKind {
    match o {
        OrderView::FilesReceiving { files, .. } => if files.len() == 0 {
            PromptKind::SendFiles
        } else {
            PromptKind::Paper
        },
        OrderView::PaperRequested { .. } => PromptKind::Paper,
        OrderView::SizeRequested { .. } => PromptKind::Size,
        OrderView::SizeSelected { .. } => PromptKind::Paper,
    }
}

/// Handling an inbound image: open the order on first contact or append
/// the file, then send the paper-type prompt if it is still owed.
pub open spec fn spec_handle_image(
    existing: Option<OrderView>,
    chat_id: String,
    customer_name: String,
    url: String,
    now: int,
) -> StepView {
    let advanced = match existing {
        None => spec_from_img_msg(chat_id, customer_name, url, now),
        Some(o) => spec_add_image(o, url, now),
    };
    if advanced.needs_first_prompt() {
        StepView {
            order: Some(spec_first_prompt_sent(advanced)),
            send: Some(OutboundView::Prompt(PromptKind::Paper)),
        }
    } else {
        StepView { order: Some(advanced), send: None }
    }
}

/// Handling an inbound text: open the order on first contact; record a
/// recognized selection and move the intake forward; re-issue the
/// pending prompt on anything unrecognized. A recognized size closes
/// the intake: the order is handed off and leaves the store. A paper
/// name answers the paper-type prompt both while files are being
/// received and in `PaperRequested`, but only once a file is on
/// record: an order without an image is asked for its files instead of
/// moving on. A text for a terminal order changes nothing.
pub open spec fn spec_handle_text(
    existing: Option<OrderView>,
    chat_id: String,
    customer_name: String,
    res: TextResolution,
    now: int,
) -> StepView {
    match existing {
        None => StepView {
            order: Some(spec_from_txt_msg(chat_id, customer_name, now)),
            send: None,
        },
        Some(o) => {
            if o.is_terminal() {
                StepView { order: Some(o), send: None }
            } else {
                match res {
                    TextResolution::Paper(p) => {
                        if o is FilesReceiving {
                            if o.files().len() > 0 {
                                StepView {
                                    order: Some(
                                        spec_set_paper(spec_paper_requested(o, now), p, now),
                                    ),
                                    send: Some(OutboundView::Prompt(PromptKind::Size)),
                                }
                            } else {
                                // no file on record yet: the choice must wait
                                spec_reprompt(o, now)
                            }
                        } else if o is PaperRequested {
                            StepView {
                                order: Some(spec_set_paper(o, p, now)),
                                send: Some(OutboundView::Prompt(PromptKind::Size)),
                            }
                        } else {
                            spec_reprompt(o, now)
                        }
                    },
                    TextResolution::Size(s, price) => {
                        if o is SizeRequested {
                            StepView {
                                order: None,
                                send: Some(
                                    OutboundView::Handoff(
                                        spec_order_message(spec_set_size(o, s, price as int))->0,
                                    ),
                                ),
                            }
                        } else {
                            spec_reprompt(o, now)
                        }
                    },
                    TextResolution::Unrecognized => spec_reprompt(o, now),
                }
            }
        },
    }
}

/// Re-issue the prompt for the pending question and count the reminder.
pub open spec fn spec_reprompt(o: OrderView, now: int) -> StepView {
    StepView {
        order: Some(spec_requested(o, now)),
        send: Some(OutboundView::Prompt(spec_current_prompt(o))),
    }
}

/// Handling any inbound message: images and texts drive the order as
/// above; a transport state notification and an empty payload change
/// nothing and send nothing.
pub open spec fn spec_handle_message(
    existing: Option<OrderView>,
    msg: Message,
    res: TextResolution,
    now: int,
) -> StepView {
    match msg {
        Message::Image(m) => spec_handle_image(existing, m.chat_id, m.customer_name, m.message, now),
        Message::Text(m) => spec_handle_text(existing, m.chat_id, m.customer_name, res, now),
        Message::StateInstance(_) => StepView { order: existing, send: None },
        Message::Empty => StepView { order: existing, send: None },
    }
}

/// Every handling step keeps the file-backing invariant: starting from
/// no order, or from one that carries a file once past intake, the
/// stored order after the step carries a file once past intake too, and
/// a handoff to fulfillment always carries at least one file. An order
/// without an uploaded image therefore never reaches the terminal state.
pub proof fn lemma_handling_preserves_files(
    existing: Option<OrderView>,
    msg: Message,
    res: TextResolution,
    now: int,
)
    requires
        existing matches Some(o) ==> o.files_invariant(),
    ensures
        spec_handle_message(existing, msg, res, now).order matches Some(o2)
            ==> o2.files_invariant(),
        spec_handle_message(existing, msg, res, now).send matches Some(
            OutboundView::Handoff(m),
        ) ==> m.files.len() > 0,
{
}

/// The prompt that re-asks the question pending in `o`.
pub fn current_prompt(o: &OrderState) -> (r: PromptKind)
    ensures
        r == spec_current_prompt(o@),
{
    match o {
        OrderState::FilesReceiving { files, .. } => if files.is_empty() {
            PromptKind::SendFiles
        } else {
            PromptKind::Paper
        },
        OrderState::PaperRequested { .. } => PromptKind::Paper,
        OrderState::SizeRequested { .. } => PromptKind::Size,
        OrderState::SizeSelected { .. } => PromptKind::Paper,
    }
}

/// Apply an inbound image message to the customer's stored order (or
/// open one) at the given clock reading.
pub fn handle_image_at(existing: Option<OrderState>, msg: ReceivedMessage, now: Timestamp) -> (r:
    Step)
    ensures
        r@ == spec_handle_image(
            opt_order_view(existing),
            msg.chat_id,
            msg.customer_name,
            msg.message,
            now@,
        ),
{
    let mut order = match existing {
        None => OrderState::from_img_msg_at(msg, now),
        Some(mut o) => {
            o.add_image_at(msg.message, now);
            o
        },
    };
    let owed = match &order {
        OrderState::FilesReceiving { first_prompt_sent, .. } => !*first_prompt_sent,
        _ => false,
    };
    if owed {
        order.set_first_prompt_has_been_requested();
        Step { order: Some(order), send: Some(Outbound::Prompt(PromptKind::Paper)) }
    } else {
        Step { order: Some(order), send: None }
    }
}

/// Re-issue the prompt for the pending question and count the reminder.
fn reprompt(mut o: OrderState, now: Timestamp) -> (r: Step)
    requires
        !o@.is_terminal(),
        o@.repeats() < i32::MAX,
    ensures
        r@ == spec_reprompt(o@, now@),
{
    let kind = current_prompt(&o);
    o.requested_at(now);
    Step { order: Some(o), send: Some(Outbound::Prompt(kind)) }
}

/// Apply an inbound text message to the customer's stored order (or
/// open one) at the given clock reading. `res` is the prompt catalog's
/// reading of the text against the current state's vocabulary.
pub fn handle_text_at(
    existing: Option<OrderState>,
    msg: ReceivedMessage,
    res: TextResolution,
    now: Timestamp,
) -> (r: Step)
    requires
        opt_order_view(existing) matches Some(o) ==> o.repeats() < i32::MAX,
    ensures
        r@ == spec_handle_text(
            opt_order_view(existing),
            msg.chat_id,
            msg.customer_name,
            res,
            now@,
        ),
{
    match existing {
        None => Step { order: Some(OrderState::from_txt_msg_at(msg, now)), send: None },
        Some(o) => {
            let terminal = match &o {
                OrderState::SizeSelected { .. } => true,
                _ => false,
            };
            if terminal {
                Step { order: Some(o), send: None }
            } else {
                match res {
                    TextResolution::Paper(p) => {
                        let in_files = match &o {
                            OrderState::FilesReceiving { .. } => true,
                            _ => false,
                        };
                        let in_paper = match &o {
                            OrderState::PaperRequested { .. } => true,
                            _ => false,
                        };
                        if in_files && !o.have_files() {
                            reprompt(o, now)
                        } else if in_files {
                            let advanced = match o.into_order_with_paper_requested_at(now) {
                                Ok(o1) => o1,
                                Err(_) => unreached(),
                            };
                            let chosen = match advanced.into_order_with_paper_at(p, now) {
                                Ok(o2) => o2,
                                Err(_) => unreached(),
                            };
                            Step {
                                order: Some(chosen),
                                send: Some(Outbound::Prompt(PromptKind::Size)),
                            }
                        } else if in_paper {
                            let chosen = match o.into_order_with_paper_at(p, now) {
                                Ok(o2) => o2,
                                Err(_) => unreached(),
                            };
                            Step {
                                order: Some(chosen),
                                send: Some(Outbound::Prompt(PromptKind::Size)),
                            }
                        } else {
                            reprompt(o, now)
                        }
                    },
                    TextResolution::Size(s, price) => {
                        let in_size = match &o {
                            OrderState::SizeRequested { .. } => true,
                            _ => false,
                        };
                        if in_size {
                            let done = match o.into_order_with_size(s, price) {
                                Ok(o2) => o2,
                                Err(_) => unreached(),
                            };
                            let payload = OrderMessage::from_order(done);
                            Step { order: None, send: Some(Outbound::Handoff(payload)) }
                        } else {
                            reprompt(o, now)
                        }
                    },
                    TextResolution::Unrecognized => reprompt(o, now),
                }
            }
        },
    }
}

/// Apply any inbound message to the customer's stored order at the
/// given clock reading. The caller performs the returned send and
/// persists (or removes) the returned order; doing so through one
/// sequential consumer keeps all mutations for a customer totally
/// ordered.
pub fn handle_message_at(
    existing: Option<OrderState>,
    msg: Message,
    res: TextResolution,
    now: Timestamp,
) -> (r: Step)
    requires
        opt_order_view(existing) matches Some(o) ==> o.repeats() < i32::MAX,
    ensures
        r@ == spec_handle_message(opt_order_view(existing), msg, res, now@),
{
    match msg {
        Message::Image(m) => handle_image_at(existing, m, now),
        Message::Text(m) => handle_text_at(existing, m, res, now),
        Message::StateInstance(_) => Step { order: existing, send: None },
        Message::Empty => Step { order: existing, send: None },
    }
}

} // verus!
