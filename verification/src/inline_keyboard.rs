//! Inline keyboard builder with structural validation.

use vstd::prelude::*;
use crate::text::{blank, is_blank};

verus! {

/// Maximum number of rows in one inline keyboard.
pub const MAX_KEYBOARD_ROWS: usize = 8;

/// Maximum number of buttons per row.
pub const MAX_BUTTONS_PER_ROW: usize = 8;

/// Typed inline keyboard payload.
#[derive(Debug, Clone, PartialEq, Eq, Default)]
pub struct InlineKeyboard {
    /// Keyboard rows.
    pub rows: Vec<InlineKeyboardRow>,
}

/// One inline keyboard row.
#[derive(Debug, Clone, PartialEq, Eq, Default)]
pub struct InlineKeyboardRow {
    /// Row buttons.
    pub buttons: Vec<InlineKeyboardButton>,
}

/// Button action type.
#[derive(Debug, Clone, PartialEq, Eq)]
pub enum InlineKeyboardButtonAction {
    /// Callback payload action.
    Callback(String),
    /// Open URL action.
    Url(String),
}

/// Inline keyboard button model.
#[derive(Debug, Clone, PartialEq, Eq)]
pub struct InlineKeyboardButton {
    /// Button label.
    pub text: String,
    /// Button action.
    pub action: InlineKeyboardButtonAction,
}

/// Keyboard builder failures.
#[derive(Debug, Clone, Copy, PartialEq, Eq, Structural)]
pub enum InlineKeyboardError {
    /// Row count exceeds limit.
    TooManyRows,
    /// Button count exceeds row limit.
    TooManyButtonsInRow,
    /// Button text is empty.
    EmptyButtonText,
    /// Callback payload is empty.
    EmptyCallbackPayload,
    /// URL is empty.
    EmptyUrl,
}

/// The view of a button action.
pub enum ActionModel {
    /// Callback with its payload.
    Callback(Seq<char>),
    /// URL button with its target.
    Url(Seq<char>),
}

/// The view of a button: label and action.
pub struct ButtonModel {
    /// Label.
    pub text: Seq<char>,
    /// Action.
    pub action: ActionModel,
}

/// The view of a button.
pub open spec fn button_model(b: InlineKeyboardButton) -> ButtonModel {
    ButtonModel {
        text: b.text@,
        action: match b.action {
            InlineKeyboardButtonAction::Callback(p) => ActionModel::Callback(p@),
            InlineKeyboardButtonAction::Url(u) => ActionModel::Url(u@),
        },
    }
}

/// The view of a row: its buttons in order.
pub open spec fn row_model(r: InlineKeyboardRow) -> Seq<ButtonModel> {
    r.buttons@.map_values(|b: InlineKeyboardButton| button_model(b))
}

/// The view of a list of rows.
pub open spec fn rows_model(rows: Seq<InlineKeyboardRow>) -> Seq<Seq<ButtonModel>> {
    rows.map_values(|r: InlineKeyboardRow| row_model(r))
}

/// Rows after adding a button to the last row, starting a row when there is
/// none; a full last row refuses the button.
pub open spec fn with_button(rows: Seq<Seq<ButtonModel>>, b: ButtonModel) -> Result<
    Seq<Seq<ButtonModel>>,
    InlineKeyboardError,
> {
    let rows = if rows.len() == 0 {
        seq![Seq::<ButtonModel>::empty()]
    } else {
        rows
    };
    if rows.last().len() >= 8 {
        Err(InlineKeyboardError::TooManyButtonsInRow)
    } else {
        Ok(rows.update(rows.len() - 1, rows.last().push(b)))
    }
}

/// At most eight rows of at most eight buttons each.
pub open spec fn within_limits(rows: Seq<Seq<ButtonModel>>) -> bool {
    rows.len() <= 8 && forall|i: int| 0 <= i < rows.len() ==> #[trigger] rows[i].len() <= 8
}

/// Adding a button keeps a keyboard within its limits.
pub proof fn lemma_with_button_within_limits(rows: Seq<Seq<ButtonModel>>, b: ButtonModel)
    requires
        within_limits(rows),
    ensures
        with_button(rows, b) matches Ok(next) ==> within_limits(next),
{
    let r = if rows.len() == 0 {
        seq![Seq::<ButtonModel>::empty()]
    } else {
        rows
    };
    if r.last().len() < 8 {
        let next = r.update(r.len() - 1, r.last().push(b));
        assert forall|i: int| 0 <= i < next.len() implies #[trigger] next[i].len() <= 8 by {
            if i != r.len() - 1 {
                assert(next[i] == r[i]);
            }
        }
    }
}

/// Fluent keyboard builder.
#[derive(Debug, Clone, Default)]
pub struct InlineKeyboardBuilder {
    rows: Vec<InlineKeyboardRow>,
}

impl InlineKeyboardBuilder {
    /// The rows built so far.
    pub closed spec fn rows_view(&self) -> Seq<Seq<ButtonModel>> {
        rows_model(self.rows@)
    }

    /// Creates empty keyboard builder.
    pub fn new() -> (b: Self)
        ensures
            b.rows_view() == Seq::<Seq<ButtonModel>>::empty(),
            within_limits(b.rows_view()),
    {
        let b = InlineKeyboardBuilder { rows: Vec::new() };
        assert(b.rows_view() =~= Seq::<Seq<ButtonModel>>::empty());
        b
    }

    /// Starts a new row; refused once eight rows exist.
    pub fn begin_row(&mut self) -> (r: Result<&mut Self, InlineKeyboardError>)
        ensures
            old(self).rows_view().len() >= 8 ==> (r matches Err(e) && e
                == InlineKeyboardError::TooManyRows && final(self).rows_view() == old(self).rows_view()),
            old(self).rows_view().len() < 8 ==> (r matches Ok(b) && b.rows_view() == old(
                self,
            ).rows_view().push(Seq::empty()) && *final(self) == *final(b) && (within_limits(
                old(self).rows_view(),
            ) ==> within_limits(b.rows_view()))),
    {
        match self.open_row() {
            Ok(()) => Ok(self),
            Err(e) => Err(e),
        }
    }

    fn open_row(&mut self) -> (r: Result<(), InlineKeyboardError>)
        ensures
            old(self).rows_view().len() >= 8 ==> r == Err::<(), _>(InlineKeyboardError::TooManyRows)
                && final(self).rows_view() == old(self).rows_view(),
            old(self).rows_view().len() < 8 ==> r is Ok && final(self).rows_view() == old(
                self,
            ).rows_view().push(Seq::empty()),
            within_limits(old(self).rows_view()) ==> within_limits(final(self).rows_view()),
    {
        if self.rows.len() >= MAX_KEYBOARD_ROWS {
            return Err(InlineKeyboardError::TooManyRows);
        }
        let ghost before = self.rows@;
        let row = InlineKeyboardRow { buttons: Vec::new() };
        assert(row_model(row) =~= Seq::<ButtonModel>::empty());
        self.rows.push(row);
        proof {
            assert(rows_model(self.rows@) =~= rows_model(before).push(Seq::empty()));
            let nv = rows_model(self.rows@);
            if within_limits(rows_model(before)) {
                assert forall|i: int| 0 <= i < nv.len() implies #[trigger] nv[i].len() <= 8 by {
                    if i < before.len() {
                        assert(nv[i] == rows_model(before)[i]);
                    }
                }
            }
        }
        Ok(())
    }

    /// Adds callback button to current row.
    pub fn callback_button(&mut self, text: &str, payload: &str) -> (r: Result<&mut Self, InlineKeyboardError>)
        ensures
            blank(text@) ==> (r matches Err(e) && e == InlineKeyboardError::EmptyButtonText
                && final(self).rows_view() == old(self).rows_view()),
            !blank(text@) && blank(payload@) ==> (r matches Err(e) && e
                == InlineKeyboardError::EmptyCallbackPayload && final(self).rows_view() == old(
                self,
            ).rows_view()),
            !blank(text@) && !blank(payload@) ==> ({
                let next = with_button(
                    old(self).rows_view(),
                    ButtonModel { text: text@, action: ActionModel::Callback(payload@) },
                );
                &&& next is Ok ==> (r matches Ok(b) && b.rows_view() == next->Ok_0 && *final(self)
                    == *final(b))
                &&& next is Err ==> (r matches Err(e) && e == next->Err_0 && final(self).rows_view()
                    == old(self).rows_view())
            }),
            within_limits(old(self).rows_view()) ==> match r {
                Ok(b) => within_limits(b.rows_view()),
                Err(_) => within_limits(final(self).rows_view()),
            },
    {
        match self.add_callback(text, payload) {
            Ok(()) => Ok(self),
            Err(e) => Err(e),
        }
    }

    fn add_callback(&mut self, text: &str, payload: &str) -> (r: Result<(), InlineKeyboardError>)
        ensures
            blank(text@) ==> r == Err::<(), _>(InlineKeyboardError::EmptyButtonText)
                && final(self).rows_view() == old(self).rows_view(),
            !blank(text@) && blank(payload@) ==> r == Err::<(), _>(
                InlineKeyboardError::EmptyCallbackPayload,
            ) && final(self).rows_view() == old(self).rows_view(),
            !blank(text@) && !blank(payload@) ==> ({
                let next = with_button(
                    old(self).rows_view(),
                    ButtonModel { text: text@, action: ActionModel::Callback(payload@) },
                );
                &&& next is Ok ==> r is Ok && final(self).rows_view() == next->Ok_0
                &&& next is Err ==> r == Err::<(), _>(next->Err_0) && final(self).rows_view()
                    == old(self).rows_view()
            }),
            within_limits(old(self).rows_view()) ==> within_limits(final(self).rows_view()),
    {
        proof {
            if within_limits(self.rows_view()) {
                lemma_with_button_within_limits(self.rows_view(), ButtonModel { text: text@, action: ActionModel::Callback(payload@) });
            }
        }
        if is_blank(text) {
            return Err(InlineKeyboardError::EmptyButtonText);
        }
        if is_blank(payload) {
            return Err(InlineKeyboardError::EmptyCallbackPayload);
        }
        self.push_button(
            InlineKeyboardButton {
                text: crate::text::owned(text),
                action: InlineKeyboardButtonAction::Callback(crate::text::owned(payload)),
            },
        )
    }

    /// Adds URL button to current row.
    pub fn url_button(&mut self, text: &str, url: &str) -> (r: Result<&mut Self, InlineKeyboardError>)
        ensures
            blank(text@) ==> (r matches Err(e) && e == InlineKeyboardError::EmptyButtonText
                && final(self).rows_view() == old(self).rows_view()),
            !blank(text@) && blank(url@) ==> (r matches Err(e) && e == InlineKeyboardError::EmptyUrl
                && final(self).rows_view() == old(self).rows_view()),
            !blank(text@) && !blank(url@) ==> ({
                let next = with_button(
                    old(self).rows_view(),
                    ButtonModel { text: text@, action: ActionModel::Url(url@) },
                );
                &&& next is Ok ==> (r matches Ok(b) && b.rows_view() == next->Ok_0 && *final(self)
                    == *final(b))
                &&& next is Err ==> (r matches Err(e) && e == next->Err_0 && final(self).rows_view()
                    == old(self).rows_view())
            }),
            within_limits(old(self).rows_view()) ==> match r {
                Ok(b) => within_limits(b.rows_view()),
                Err(_) => within_limits(final(self).rows_view()),
            },
    {
        match self.add_url(text, url) {
            Ok(()) => Ok(self),
            Err(e) => Err(e),
        }
    }

    fn add_url(&mut self, text: &str, url: &str) -> (r: Result<(), InlineKeyboardError>)
        ensures
            blank(text@) ==> r == Err::<(), _>(InlineKeyboardError::EmptyButtonText)
                && final(self).rows_view() == old(self).rows_view(),
            !blank(text@) && blank(url@) ==> r == Err::<(), _>(InlineKeyboardError::EmptyUrl)
                && final(self).rows_view() == old(self).rows_view(),
            !blank(text@) && !blank(url@) ==> ({
                let next = with_button(
                    old(self).rows_view(),
                    ButtonModel { text: text@, action: ActionModel::Url(url@) },
                );
                &&& next is Ok ==> r is Ok && final(self).rows_view() == next->Ok_0
                &&& next is Err ==> r == Err::<(), _>(next->Err_0) && final(self).rows_view()
                    == old(self).rows_view()
            }),
            within_limits(old(self).rows_view()) ==> within_limits(final(self).rows_view()),
    {
        proof {
            if within_limits(self.rows_view()) {
                lemma_with_button_within_limits(self.rows_view(), ButtonModel { text: text@, action: ActionModel::Url(url@) });
            }
        }
        if is_blank(text) {
            return Err(InlineKeyboardError::EmptyButtonText);
        }
        if is_blank(url) {
            return Err(InlineKeyboardError::EmptyUrl);
        }
        self.push_button(
            InlineKeyboardButton {
                text: crate::text::owned(text),
                action: InlineKeyboardButtonAction::Url(crate::text::owned(url)),
            },
        )
    }

    /// Returns built keyboard payload.
    pub fn build(self) -> (k: InlineKeyboard)
        ensures
            rows_model(k.rows@) == self.rows_view(),
    {
        InlineKeyboard { rows: self.rows }
    }

    fn push_button(&mut self, button: InlineKeyboardButton) -> (r: Result<(), InlineKeyboardError>)
        ensures
            ({
                let next = with_button(old(self).rows_view(), button_model(button));
                &&& next is Ok ==> r is Ok && final(self).rows_view() == next->Ok_0
                &&& next is Err ==> r == Err::<(), _>(next->Err_0) && final(self).rows_view()
                    == old(self).rows_view()
            }),
    {
        let ghost start = self.rows_view();
        if self.rows.len() == 0 {
            let _ = self.open_row();
            assert(self.rows_view() =~= seq![Seq::<ButtonModel>::empty()]);
        }
        assert(self.rows_view().len() == self.rows@.len());
        let n = self.rows.len();
        let count = self.rows[n - 1].buttons.len();
        proof {
            assert(self.rows_view()[n - 1] == row_model(self.rows@[n - 1]));
        }
        if count >= MAX_BUTTONS_PER_ROW {
            return Err(InlineKeyboardError::TooManyButtonsInRow);
        }
        let ghost before = self.rows@;
        let mut row = self.rows.pop().unwrap();
        row.buttons.push(button);
        self.rows.push(row);
        proof {
            assert(self.rows@ == before.update(n - 1, row));
            assert(row_model(row) =~= row_model(before[n - 1]).push(button_model(button)));
            assert(rows_model(self.rows@) =~= rows_model(before).update(
                n - 1,
                rows_model(before)[n - 1].push(button_model(button)),
            ));
        }
        Ok(())
    }
}

} // verus!
