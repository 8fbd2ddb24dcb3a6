//! The print job as a state machine: the caller performs each action
//! against the printer and hands the outcome back.

use vstd::prelude::*;

use super::{
    color_after, page_fits, page_frame, preamble, preamble_bytes, spec_page_frame, status_request,
    status_request_bytes, Config, Status,
};
use crate::error::Error;
use crate::media::Media;
use crate::Matrix;

verus! {

/// Where a print job stands.
#[derive(Debug, Clone, Copy, PartialEq, Eq, Structural)]
pub enum JobState {
    /// Nothing sent yet.
    Idle,
    /// The status request is out; its write result is awaited.
    RequestingStatus,
    /// The status reply that opens the job is awaited.
    AwaitingStatus,
    /// Media and options checked; the first page is awaited.
    Configuring,
    /// Page `i` (from 0) is held; the next page, or the end, is awaited.
    StreamingPage(usize),
    /// The frame of page `i` is out; its write result is awaited.
    Sending(usize),
    /// The status reply after page `i` is awaited.
    Acknowledging(usize),
    /// All pages were sent.
    Done,
    /// The job stopped on an error.
    Failed,
}

/// What a job waits for.
#[derive(Debug, Clone, Copy, PartialEq, Eq, Structural)]
pub enum Awaiting {
    Start,
    WriteResult,
    StatusReply,
    Page,
    Nothing,
}

pub open spec fn spec_awaiting(state: JobState) -> Awaiting {
    match state {
        JobState::Idle => Awaiting::Start,
        JobState::RequestingStatus | JobState::Sending(_) => Awaiting::WriteResult,
        JobState::AwaitingStatus | JobState::Acknowledging(_) => Awaiting::StatusReply,
        JobState::Configuring | JobState::StreamingPage(_) => Awaiting::Page,
        JobState::Done | JobState::Failed => Awaiting::Nothing,
    }
}

/// What the caller is to do next for a job.
#[derive(Debug)]
pub enum Action {
    /// Write these bytes to the printer and report the result.
    Write(Vec<u8>),
    /// Read the printer's status and report it.
    ReadStatus,
    /// Fetch the next page, or report that there is none.
    NextPage,
    /// The job is over, with this outcome.
    Finish(Result<(), Error>),
}

/// The index of the page after page `i`, held at the largest index.
pub open spec fn next_index(i: usize) -> usize {
    if i < usize::MAX {
        (i + 1) as usize
    } else {
        i
    }
}

/// A multi-page print job as a state machine. The caller performs each
/// action and hands its outcome back: a status handshake that checks the
/// media, then one frame per page, with a status read between pages. The
/// job pulls one page ahead so that it knows which page is the last; it
/// stops at the first error.
pub struct PrintJob {
    media: Media,
    config: Config,
    state: JobState,
    preamble: Vec<u8>,
    page: Option<Matrix>,
    color: bool,
}

impl PrintJob {
    /// A job for `media` with the options `config`, not started yet.
    pub fn new(media: Media, config: Config) -> (job: Self)
        ensures
            job.wf(),
            job.state() == JobState::Idle,
            job.media() == media,
            job.config() == config,
    {
        PrintJob { media, config, state: JobState::Idle, preamble: Vec::new(), page: None, color: false }
    }

    pub closed spec fn media(&self) -> Media {
        self.media
    }

    pub closed spec fn config(&self) -> Config {
        self.config
    }

    pub closed spec fn state(&self) -> JobState {
        self.state
    }

    /// The page held for sending.
    pub closed spec fn held_page(&self) -> Option<Seq<Vec<u8>>> {
        match self.page {
            Some(p) => Some(p@),
            None => None,
        }
    }

    /// Which two-color row header comes next.
    pub closed spec fn next_color(&self) -> bool {
        self.color
    }

    /// The bytes sent before the first page, once the job is configured.
    pub closed spec fn preamble(&self) -> Seq<u8> {
        self.preamble@
    }

    pub closed spec fn wf(&self) -> bool {
        &&& (self.state is Configuring || self.state is StreamingPage || self.state is Sending
            || self.state is Acknowledging) ==> self.preamble@ == preamble_bytes(self.media, self.config)
        &&& (self.state is StreamingPage || self.state is Acknowledging) ==> self.page is Some
        &&& self.page is Some ==> page_fits(self.page->0@)
    }

    /// What the job waits for.
    pub fn awaiting(&self) -> (r: Awaiting)
        ensures
            r == spec_awaiting(self.state()),
    {
        match self.state {
            JobState::Idle => Awaiting::Start,
            JobState::RequestingStatus | JobState::Sending(_) => Awaiting::WriteResult,
            JobState::AwaitingStatus | JobState::Acknowledging(_) => Awaiting::StatusReply,
            JobState::Configuring | JobState::StreamingPage(_) => Awaiting::Page,
            JobState::Done | JobState::Failed => Awaiting::Nothing,
        }
    }

    /// Starts the job with a status request.
    pub fn start(&mut self) -> (action: Action)
        requires
            old(self).wf(),
            old(self).state() == JobState::Idle,
        ensures
            final(self).wf(),
            final(self).media() == old(self).media(),
            final(self).config() == old(self).config(),
            final(self).state() == JobState::RequestingStatus,
            action is Write && action->Write_0@ == status_request_bytes(),
    {
        self.state = JobState::RequestingStatus;
        Action::Write(status_request())
    }

    /// Takes the result of a write.
    pub fn on_written(&mut self, result: Result<usize, Error>) -> (action: Action)
        requires
            old(self).wf(),
            spec_awaiting(old(self).state()) == Awaiting::WriteResult,
        ensures
            final(self).wf(),
            final(self).media() == old(self).media(),
            final(self).config() == old(self).config(),
            final(self).held_page() == old(self).held_page(),
            final(self).next_color() == old(self).next_color(),
            match result {
                Err(e) => final(self).state() == JobState::Failed && action == Action::Finish(
                    Err(e),
                ),
                Ok(_) => match old(self).state() {
                    JobState::Sending(i) => if old(self).held_page() is Some {
                        final(self).state() == JobState::Acknowledging(i) && action is ReadStatus
                    } else {
                        final(self).state() == JobState::Done && action == Action::Finish(Ok(()))
                    },
                    _ => final(self).state() == JobState::AwaitingStatus && action is ReadStatus,
                },
            },
    {
        match result {
            Err(e) => {
                self.state = JobState::Failed;
                Action::Finish(Err(e))
            },
            Ok(_) => match self.state {
                JobState::Sending(i) => {
                    if self.page.is_some() {
                        self.state = JobState::Acknowledging(i);
                        Action::ReadStatus
                    } else {
                        self.state = JobState::Done;
                        Action::Finish(Ok(()))
                    }
                },
                _ => {
                    self.state = JobState::AwaitingStatus;
                    Action::ReadStatus
                },
            },
        }
    }

    /// Takes the result of a status read. The opening reply must report
    /// the job's media, and the options must suit it; the reply between
    /// pages only has to come.
    pub fn on_status(&mut self, result: Result<Status, Error>) -> (action: Action)
        requires
            old(self).wf(),
            spec_awaiting(old(self).state()) == Awaiting::StatusReply,
        ensures
            final(self).wf(),
            final(self).media() == old(self).media(),
            final(self).config() == old(self).config(),
            final(self).held_page() == old(self).held_page(),
            final(self).next_color() == old(self).next_color(),
            match result {
                Err(e) => final(self).state() == JobState::Failed && action == Action::Finish(
                    Err(e),
                ),
                Ok(status) => match old(self).state() {
                    JobState::Acknowledging(i) => final(self).state() == JobState::StreamingPage(
                        next_index(i),
                    ) && action is NextPage,
                    _ => if status.media != Some(old(self).media()) {
                        final(self).state() == JobState::Failed && action == Action::Finish(
                            Err(Error::InvalidMedia(old(self).media())),
                        )
                    } else if !old(self).config().valid_for(old(self).media()) {
                        final(self).state() == JobState::Failed && action is Finish
                            && action->Finish_0 is Err && action->Finish_0->Err_0 is InvalidConfig
                    } else {
                        final(self).state() == JobState::Configuring && action is NextPage
                    },
                },
            },
    {
        let status = match result {
            Err(e) => {
                self.state = JobState::Failed;
                return Action::Finish(Err(e));
            },
            Ok(status) => status,
        };
        if let JobState::Acknowledging(i) = self.state {
            self.state = JobState::StreamingPage(if i < usize::MAX { i + 1 } else { i });
            return Action::NextPage;
        }
        if let Err(e) = status.check_media(self.media) {
            self.state = JobState::Failed;
            return Action::Finish(Err(e));
        }
        match preamble(self.media, self.config) {
            Ok(bytes) => {
                self.preamble = bytes;
                self.state = JobState::Configuring;
                Action::NextPage
            },
            Err(e) => {
                self.state = JobState::Failed;
                Action::Finish(Err(e))
            },
        }
    }

    /// Takes the next page, or `None` at the end of the job. With a page
    /// held, the held page's frame goes out, marked as the last page when
    /// `page` is `None`.
    pub fn on_page(&mut self, page: Option<Matrix>) -> (action: Action)
        requires
            old(self).wf(),
            spec_awaiting(old(self).state()) == Awaiting::Page,
            page matches Some(p) ==> page_fits(p@),
        ensures
            final(self).wf(),
            final(self).media() == old(self).media(),
            final(self).config() == old(self).config(),
            match old(self).state() {
                JobState::StreamingPage(i) => {
                    &&& final(self).state() == JobState::Sending(i)
                    &&& final(self).held_page() == (match page {
                        Some(p) => Some(p@),
                        None => None,
                    })
                    &&& action is Write
                    &&& action->Write_0@ == spec_page_frame(
                        old(self).media(),
                        old(self).config(),
                        old(self).preamble(),
                        old(self).held_page()->0,
                        i == 0,
                        page is None,
                        old(self).next_color(),
                    )
                    &&& final(self).next_color() == color_after(
                        old(self).held_page()->0.len(),
                        old(self).config().two_colors,
                        old(self).next_color(),
                    )
                },
                _ => match page {
                    Some(p) => final(self).state() == JobState::StreamingPage(0)
                        && final(self).held_page() == Some(p@) && final(self).next_color()
                        == old(self).next_color() && action is NextPage,
                    None => final(self).state() == JobState::Done && action == Action::Finish(
                        Ok(()),
                    ),
                },
            },
    {
        match self.state {
            JobState::StreamingPage(i) => {
                let last = page.is_none();
                let held = match self.page.take() {
                    Some(p) => p,
                    None => Vec::new(),
                };
                let (frame, next) = page_frame(
                    self.media,
                    self.config,
                    &self.preamble,
                    &held,
                    i == 0,
                    last,
                    self.color,
                );
                self.page = page;
                self.color = next;
                self.state = JobState::Sending(i);
                Action::Write(frame)
            },
            _ => match page {
                Some(p) => {
                    self.page = Some(p);
                    self.state = JobState::StreamingPage(0);
                    Action::NextPage
                },
                None => {
                    self.state = JobState::Done;
                    Action::Finish(Ok(()))
                },
            },
        }
    }
}

} // verus!
