//! The information bar: the events it handles.
use vstd::prelude::*;

use crate::ui_event::{InfoBarEvent, UIEvent, UIEventChannel, UIEventView};

verus! {

/// Asks the information bar to put `question` to the user.
pub fn ask_question(channel: &mut UIEventChannel, question: &str)
    ensures
        final(channel).view() == old(channel).view().push(UIEventView::AskQuestion(question@)),
{
    channel.send(UIEvent::InfoBar(InfoBarEvent::AskQuestion { question: question.to_owned() }));
}

/// Asks the information bar to hide.
pub fn hide_info_bar(channel: &mut UIEventChannel)
    ensures
        final(channel).view() == old(channel).view().push(UIEventView::HideInfoBar),
{
    channel.send(UIEvent::InfoBar(InfoBarEvent::Hide));
}

/// Asks the information bar to show the error `error`.
pub fn show_error(channel: &mut UIEventChannel, error: &str)
    ensures
        final(channel).view() == old(channel).view().push(UIEventView::ShowError(error@)),
{
    channel.send(UIEvent::InfoBar(InfoBarEvent::ShowError(error.to_owned())));
}

/// Asks the information bar to show the message `info`.
pub fn show_info(channel: &mut UIEventChannel, info: &str)
    ensures
        final(channel).view() == old(channel).view().push(UIEventView::ShowInfo(info@)),
{
    channel.send(UIEvent::InfoBar(InfoBarEvent::ShowInfo(info.to_owned())));
}

} // verus!
