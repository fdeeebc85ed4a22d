use vstd::prelude::*;

verus! {

use crate::containers_table_view::{row_views, table_rows_of};
use crate::messages::{
    KantoRequest, KantoResponse, RequestV, ResponseV, request_views, request_opt_view,
    response_opt_view,
};
use crate::queue::{BoundedQueue, send_spec};
use crate::row_sort::TableRowV;
use crate::table_state::TableState;

/// One operator input of a frame: a key press or button activation, or the
/// dismissal of the log view.
#[derive(Clone, Copy, PartialEq, Eq, Debug)]
pub enum InputEvent {
    StartSelected,
    StopSelected,
    RemoveSelected,
    LogsSelected,
    DismissLogs,
    Quit,
}

/// The UI's two conceptual states: browsing the table, or viewing fetched
/// log text in a modal view that returns to browsing on explicit dismiss.
pub enum UiMode {
    Browsing,
    ViewingLogs(String),
}

/// The UI mode as the contracts see it.
#[verifier::ext_equal]
pub enum UiModeV {
    Browsing,
    ViewingLogs(Seq<char>),
}

impl View for UiMode {
    type V = UiModeV;

    open spec fn view(&self) -> UiModeV {
        match self {
            UiMode::Browsing => UiModeV::Browsing,
            UiMode::ViewingLogs(text) => UiModeV::ViewingLogs(text@),
        }
    }
}

/// The whole state the UI loop owns: the table state model and the mode.
pub struct UiState {
    pub table: TableState,
    pub mode: UiMode,
}

/// The UI state as the contracts see it.
#[verifier::ext_equal]
pub struct UiStateV {
    pub mode: UiModeV,
    pub rows: Seq<TableRowV>,
    pub selected: Option<usize>,
}

impl View for UiState {
    type V = UiStateV;

    open spec fn view(&self) -> UiStateV {
        UiStateV {
            mode: self.mode@,
            rows: row_views(self.table.rows@),
            selected: self.table.selected,
        }
    }
}

/// The id of the selected row, when a selection exists.
pub open spec fn sel_of(t: TableState) -> Option<Seq<char>> {
    match t.selected {
        Option::Some(k) => Option::Some(t.rows@[k as int]@.id),
        Option::None => Option::None,
    }
}

/// The command one operator input turns into: operations on the selected
/// container are keyed by its stable id, and issue nothing when no row is
/// selected. A remove is forced; a stop carries the operator's grace period.
/// Dismissing the log view and quitting issue no command.
pub open spec fn request_for(ev: InputEvent, sel: Option<Seq<char>>, stop_timeout: int) -> Option<
    RequestV,
> {
    match ev {
        InputEvent::StartSelected => match sel {
            Option::Some(id) => Option::Some(RequestV::StartContainer(id)),
            Option::None => Option::None,
        },
        InputEvent::StopSelected => match sel {
            Option::Some(id) => Option::Some(RequestV::StopContainer(id, stop_timeout)),
            Option::None => Option::None,
        },
        InputEvent::RemoveSelected => match sel {
            Option::Some(id) => Option::Some(RequestV::RemoveContainer(id, true)),
            Option::None => Option::None,
        },
        InputEvent::LogsSelected => match sel {
            Option::Some(id) => Option::Some(RequestV::GetLogs(id)),
            Option::None => Option::None,
        },
        InputEvent::DismissLogs => Option::None,
        InputEvent::Quit => Option::None,
    }
}

/// The command of a frame's optional input.
pub open spec fn input_request(
    input: Option<InputEvent>,
    sel: Option<Seq<char>>,
    stop_timeout: int,
) -> Option<RequestV> {
    match input {
        Option::Some(ev) => request_for(ev, sel, stop_timeout),
        Option::None => Option::None,
    }
}

/// What one result does to the UI state: a listing replaces the table rows
/// (sorted ascending by id, selection preserved by position); log text opens
/// the log view and leaves the table alone.
pub open spec fn apply_response_spec(s: UiStateV, r: ResponseV) -> UiStateV {
    match r {
        ResponseV::ListContainers(items) => UiStateV {
            mode: s.mode,
            rows: table_rows_of(items),
            selected: match s.selected {
                Option::Some(k) => if (k as int) < items.len() {
                    Option::Some(k)
                } else {
                    Option::<usize>::None
                },
                Option::None => Option::<usize>::None,
            },
        },
        ResponseV::GetLogs(text) => UiStateV {
            mode: UiModeV::ViewingLogs(text),
            rows: s.rows,
            selected: s.selected,
        },
    }
}

/// The state one whole frame leaves behind: a dismissal returns to browsing,
/// then at most one drained result is applied.
pub open spec fn frame_state_spec(
    s: UiStateV,
    input: Option<InputEvent>,
    received: Option<ResponseV>,
) -> UiStateV {
    let s1 = if input == Option::Some(InputEvent::DismissLogs) {
        UiStateV { mode: UiModeV::Browsing, rows: s.rows, selected: s.selected }
    } else {
        s
    };
    match received {
        Option::Some(r) => apply_response_spec(s1, r),
        Option::None => s1,
    }
}

/// The commands one whole frame submits to the command queue, best-effort: at
/// most one from operator input, then the unconditional ListContainers poll
/// of the refresh tick.
pub open spec fn frame_sends_spec(
    q: Seq<RequestV>,
    cap: int,
    input: Option<InputEvent>,
    sel: Option<Seq<char>>,
    stop_timeout: int,
) -> Seq<RequestV> {
    let q1 = match input_request(input, sel, stop_timeout) {
        Option::Some(rv) => send_spec(q, cap, rv),
        Option::None => q,
    };
    send_spec(q1, cap, RequestV::ListContainers)
}

/// Sending one command and then viewing the queue is viewing the queue and
/// then sending the command's view.
proof fn lemma_request_views_send(s: Seq<KantoRequest>, cap: int, x: KantoRequest)
    ensures
        request_views(send_spec(s, cap, x)) =~= send_spec(request_views(s), cap, x@),
{
    if s.len() < cap {
        assert(request_views(s.push(x)) =~= request_views(s).push(x@)) by {
            assert forall|i: int| 0 <= i < s.len() + 1 implies request_views(s.push(x))[i]
                == request_views(s).push(x@)[i] by {
                if i < s.len() {
                    assert(s.push(x)[i] == s[i]);
                }
            }
        }
    }
}

/// Translate one operator input into the command it issues, reading the
/// current selection.
pub fn input_to_request(ev: InputEvent, table: &TableState, stop_timeout: i64) -> (r: Option<
    KantoRequest,
>)
    requires
        table.wf(),
    ensures
        request_opt_view(r) == request_for(ev, sel_of(*table), stop_timeout as int),
{
    match ev {
        InputEvent::StartSelected => match table.selected_id() {
            Option::Some(id) => Option::Some(KantoRequest::StartContainer(id)),
            Option::None => Option::None,
        },
        InputEvent::StopSelected => match table.selected_id() {
            Option::Some(id) => Option::Some(KantoRequest::StopContainer(id, stop_timeout)),
            Option::None => Option::None,
        },
        InputEvent::RemoveSelected => match table.selected_id() {
            Option::Some(id) => Option::Some(KantoRequest::RemoveContainer(id, true)),
            Option::None => Option::None,
        },
        InputEvent::LogsSelected => match table.selected_id() {
            Option::Some(id) => Option::Some(KantoRequest::GetLogs(id)),
            Option::None => Option::None,
        },
        InputEvent::DismissLogs => Option::None,
        InputEvent::Quit => Option::None,
    }
}

impl UiState {
    /// The UI state is valid when its table state model is.
    pub open spec fn wf(self) -> bool {
        self.table.wf()
    }

    /// The state at UI start: an empty table, browsing.
    pub fn new() -> (s: UiState)
        ensures
            s.wf(),
            s@.mode == UiModeV::Browsing,
            s@.rows.len() == 0,
            s@.selected is None,
    {
        UiState { table: TableState::new(), mode: UiMode::Browsing }
    }

    /// Apply one result drained from the result queue.
    pub fn apply_response(&mut self, resp: KantoResponse)
        requires
            old(self).wf(),
        ensures
            final(self).wf(),
            final(self)@ == apply_response_spec(old(self)@, resp@),
    {
        let ghost rv: ResponseV = resp@;
        match resp {
            KantoResponse::ListContainers(items) => {
                self.table.apply_container_list(items);
            },
            KantoResponse::GetLogs(text) => {
                self.mode = UiMode::ViewingLogs(text);
            },
        }
        proof {
            assert(self@ =~= apply_response_spec(old(self)@, rv));
        }
    }

    /// Leave the log view on explicit dismiss input; everything else stays.
    pub fn dismiss_logs(&mut self)
        requires
            old(self).wf(),
        ensures
            final(self).wf(),
            final(self)@ == (UiStateV {
                mode: UiModeV::Browsing,
                rows: old(self)@.rows,
                selected: old(self)@.selected,
            }),
    {
        self.mode = UiMode::Browsing;
    }
}

/// One frame of the UI loop, at the fixed frame rate: translate at most one
/// operator input into a command and submit it best-effort, submit the
/// unconditional ListContainers poll of the refresh tick best-effort, then
/// drain at most one result into the state. The UI context never blocks: both
/// submissions drop on a full queue, and the result was taken by a
/// non-blocking receive. Returns whether the operator asked to quit.
pub fn frame_tick(
    state: &mut UiState,
    input: Option<InputEvent>,
    received: Option<KantoResponse>,
    commands: &mut BoundedQueue<KantoRequest>,
    stop_timeout: i64,
) -> (quit: bool)
    requires
        old(state).wf(),
        old(commands).wf(),
    ensures
        final(state).wf(),
        final(commands).wf(),
        final(commands).capacity == old(commands).capacity,
        quit == (input == Option::Some(InputEvent::Quit)),
        request_views(final(commands).items@) == frame_sends_spec(
            request_views(old(commands).items@),
            old(commands).capacity as int,
            input,
            sel_of(old(state).table),
            stop_timeout as int,
        ),
        final(state)@ == frame_state_spec(old(state)@, input, response_opt_view(received)),
{
    let ghost q0: Seq<RequestV> = request_views(commands.items@);
    let ghost cap: int = commands.capacity as int;
    let ghost sel: Option<Seq<char>> = sel_of(state.table);
    let mut quit = false;
    match input {
        Option::Some(ev) => {
            match ev {
                InputEvent::DismissLogs => {
                    state.dismiss_logs();
                },
                InputEvent::Quit => {
                    quit = true;
                },
                _ => {
                    match input_to_request(ev, &state.table, stop_timeout) {
                        Option::Some(req) => {
                            proof {
                                lemma_request_views_send(commands.items@, cap, req);
                            }
                            crate::try_best(commands.best_effort_send(req));
                        },
                        Option::None => {},
                    }
                },
            }
        },
        Option::None => {},
    }
    proof {
        assert(request_views(commands.items@) == match input_request(
            input,
            sel,
            stop_timeout as int,
        ) {
            Option::Some(rv) => send_spec(q0, cap, rv),
            Option::None => q0,
        });
    }
    proof {
        lemma_request_views_send(commands.items@, cap, KantoRequest::ListContainers);
    }
    crate::try_best(commands.best_effort_send(KantoRequest::ListContainers));
    match received {
        Option::Some(resp) => {
            state.apply_response(resp);
        },
        Option::None => {},
    }
    quit
}

} // verus!
