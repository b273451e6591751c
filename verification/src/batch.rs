//! The batch system: applications run one after another, each loaded into
//! the same region.
use vstd::prelude::*;
use crate::app_loader::{table_sorted, AppImage};
use crate::config::{APP_BASE_ADDRESS, MAX_APP_NUM};

verus! {

/// What to do for the next application of the batch.
#[derive(Clone, Copy, Debug, PartialEq, Eq, Structural)]
pub enum BatchLoad {
    /// Every application has run: count down and shut down.
    AllDone,
    /// Load this image and run it.
    Load(AppImage),
}

/// The batch: the image bounds of the applications and the next one to run.
pub struct AppManager {
    pub num_app: usize,
    pub current_app: usize,
    pub app_start: Vec<usize>,
}

impl AppManager {
    /// The table holds `num_app + 1` sorted image bounds.
    pub open spec fn wf(&self) -> bool {
        &&& self.app_start@.len() == self.num_app + 1
        &&& table_sorted(self.app_start@)
    }

    /// The batch described by the table of image bounds (the application
    /// count is one less than its length), starting with application 0.
    pub fn new(app_start: &[usize]) -> (m: Self)
        requires
            1 <= app_start@.len() <= MAX_APP_NUM + 1,
        ensures
            m.num_app == app_start@.len() - 1,
            m.current_app == 0,
            m.app_start@ == app_start@,
    {
        let mut table: Vec<usize> = Vec::new();
        let mut i: usize = 0;
        while i < app_start.len()
            invariant
                i <= app_start@.len(),
                table@ == app_start@.subrange(0, i as int),
            decreases app_start@.len() - i,
        {
            table.push(app_start[i]);
            i = i + 1;
            assert(table@ =~= app_start@.subrange(0, i as int));
        }
        assert(table@ =~= app_start@);
        AppManager { num_app: app_start.len() - 1, current_app: 0, app_start: table }
    }

    /// The application that runs next.
    pub fn get_current_app(&self) -> (id: usize)
        ensures
            id == self.current_app,
    {
        self.current_app
    }

    /// Moves on to the following application.
    pub fn move_to_next_app(&mut self)
        requires
            old(self).current_app < usize::MAX,
        ensures
            final(self).current_app == old(self).current_app + 1,
            final(self).num_app == old(self).num_app,
            final(self).app_start@ == old(self).app_start@,
    {
        self.current_app = self.current_app + 1;
    }

    /// What loading application `app_id` means: past the last application
    /// the batch is done; otherwise its image is copied into the single
    /// application region.
    pub fn load_app(&self, app_id: usize) -> (r: BatchLoad)
        requires
            self.wf(),
        ensures
            app_id >= self.num_app ==> r == BatchLoad::AllDone,
            app_id < self.num_app ==> r == BatchLoad::Load(AppImage {
                dst: APP_BASE_ADDRESS,
                src: self.app_start@[app_id as int],
                len: (self.app_start@[app_id + 1] - self.app_start@[app_id as int]) as usize,
            }),
    {
        if app_id >= self.num_app {
            return BatchLoad::AllDone;
        }
        let src = self.app_start[app_id];
        let end = self.app_start[app_id + 1];
        BatchLoad::Load(AppImage { dst: APP_BASE_ADDRESS, src, len: end - src })
    }

    /// Loads the current application and moves on to the following one;
    /// once every application has run the batch is done and stays so.
    pub fn run_next_app(&mut self) -> (r: BatchLoad)
        requires
            old(self).wf(),
        ensures
            r == old(self).load_app_spec(old(self).current_app),
            final(self).wf(),
            final(self).num_app == old(self).num_app,
            final(self).app_start@ == old(self).app_start@,
            final(self).current_app == (if r == BatchLoad::AllDone {
                old(self).current_app as int
            } else {
                old(self).current_app + 1
            }),
    {
        let current = self.get_current_app();
        let r = self.load_app(current);
        if let BatchLoad::Load(_) = r {
            self.move_to_next_app();
        }
        r
    }

    /// What [`AppManager::load_app`] answers for `app_id`.
    pub open spec fn load_app_spec(&self, app_id: usize) -> BatchLoad {
        if app_id >= self.num_app {
            BatchLoad::AllDone
        } else {
            BatchLoad::Load(AppImage {
                dst: APP_BASE_ADDRESS,
                src: self.app_start@[app_id as int],
                len: (self.app_start@[app_id + 1] - self.app_start@[app_id as int]) as usize,
            })
        }
    }
}

} // verus!
