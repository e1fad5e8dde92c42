use vstd::prelude::*;

verus! {

/// Streaming state of the mobile shell: whether a stream runs, and whether
/// it has been moved to the background.
pub struct MobileAudioService {
    is_streaming: bool,
    is_background: bool,
}

impl MobileAudioService {
    pub closed spec fn streaming(&self) -> bool {
        self.is_streaming
    }

    pub closed spec fn background(&self) -> bool {
        self.is_background
    }

    /// A service that is neither streaming nor in the background.
    pub fn new() -> (r: MobileAudioService)
        ensures
            !r.streaming(),
            !r.background(),
    {
        MobileAudioService { is_streaming: false, is_background: false }
    }

    pub fn is_streaming(&self) -> (r: bool)
        ensures
            r == self.streaming(),
    {
        self.is_streaming
    }

    pub fn is_background(&self) -> (r: bool)
        ensures
            r == self.background(),
    {
        self.is_background
    }

    /// Marks streaming as continuing in the background. The platform's own
    /// notification and session setup are the caller's to do.
    pub fn start_background_streaming(&mut self) -> (r: Result<(), String>)
        ensures
            r is Ok,
            final(self).background(),
            final(self).streaming() == old(self).streaming(),
    {
        self.is_background = true;
        Ok(())
    }
}

} // verus!
