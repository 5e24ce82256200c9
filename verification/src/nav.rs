//! Small control-surface types shared with the front end: the editable
//! columns of the track table and operator-facing messages.

use vstd::prelude::*;

verus! {

/// A kind of operator notification.
#[derive(Debug, Clone, Copy, PartialEq, Eq, Structural)]
pub enum MessageType {
    Warning,
    Error,
}

/// An operator notification with the moment it appeared (micros), so it
/// can expire.
#[derive(Debug, Clone)]
pub struct Message {
    pub text: String,
    pub msg_type: MessageType,
    pub timestamp: u64,
}

/// A column of the track table.
#[derive(Debug, Clone, Copy, PartialEq, Eq, Structural)]
pub enum Column {
    Arm,
    Monitor,
    Solo,
    Level,
    Pan,
}

impl Column {
    /// Every column, in display order.
    pub fn all() -> (r: Vec<Column>)
        ensures
            r@ == seq![
                Column::Arm,
                Column::Monitor,
                Column::Solo,
                Column::Level,
                Column::Pan,
            ],
    {
        let mut r: Vec<Column> = Vec::new();
        r.push(Column::Arm);
        r.push(Column::Monitor);
        r.push(Column::Solo);
        r.push(Column::Level);
        r.push(Column::Pan);
        proof {
            assert(r@ =~= seq![
                Column::Arm,
                Column::Monitor,
                Column::Solo,
                Column::Level,
                Column::Pan,
            ]);
        }
        r
    }
}

/// Whether a message posted at `timestamp` has outlived `duration` at
/// time `now`.
pub fn message_expired(timestamp: u64, now: u64, duration: u64) -> (r: bool)
    requires
        timestamp <= now,
    ensures
        r == (now - timestamp > duration),
{
    now - timestamp > duration
}


/// What an arrow key asks of the engine while a value is being edited.
#[derive(Debug, Clone, Copy, PartialEq, Eq, Structural)]
pub enum NavAction {
    /// Pure navigation; nothing to change.
    Navigate,
    /// Raise the selected track's level one step.
    IncreaseLevel,
    /// Lower the selected track's level one step.
    DecreaseLevel,
    /// Move the selected track's pan one step left.
    PanLeft,
    /// Move the selected track's pan one step right.
    PanRight,
}

/// The selection cursor over the track table: input tracks first, then
/// playback tracks, then the mix-arm row.
#[derive(Debug, Clone, Copy, PartialEq, Eq, Structural)]
pub struct NavState {
    /// Selected input track index.
    pub selected_track: usize,
    /// Selected column.
    pub selected_column: Column,
    /// Whether the mix recording row is selected.
    pub selected_on_mix_row: bool,
    /// Selected playback track index.
    pub selected_playback_track: usize,
    /// Whether the cursor is in the playback section.
    pub in_playback_section: bool,
    /// Whether a value is being edited.
    pub edit_mode: bool,
}

/// The column one step to the left in the input-track section.
pub open spec fn column_left(c: Column) -> Column {
    match c {
        Column::Arm => Column::Arm,
        Column::Monitor => Column::Arm,
        Column::Solo => Column::Monitor,
        Column::Level => Column::Solo,
        Column::Pan => Column::Level,
    }
}

/// The column one step to the right in the input-track section.
pub open spec fn column_right(c: Column) -> Column {
    match c {
        Column::Arm => Column::Monitor,
        Column::Monitor => Column::Solo,
        Column::Solo => Column::Level,
        Column::Level => Column::Pan,
        Column::Pan => Column::Pan,
    }
}

impl NavState {
    /// The cursor's starting point: the first input track's arm column.
    pub fn new() -> (s: NavState)
        ensures
            s == (NavState {
                selected_track: 0,
                selected_column: Column::Arm,
                selected_on_mix_row: false,
                selected_playback_track: 0,
                in_playback_section: false,
                edit_mode: false,
            }),
    {
        NavState {
            selected_track: 0,
            selected_column: Column::Arm,
            selected_on_mix_row: false,
            selected_playback_track: 0,
            in_playback_section: false,
            edit_mode: false,
        }
    }

    /// The cursor after one step up: mix row to the last playback track
    /// (or last input track when there are none), playback to input
    /// tracks, previous input track otherwise.
    pub open spec fn up_step(s: NavState, num_tracks: int, num_playback: int) -> NavState {
        if s.selected_on_mix_row {
            if num_playback > 0 {
                NavState {
                    selected_on_mix_row: false,
                    in_playback_section: true,
                    selected_playback_track: (num_playback - 1) as usize,
                    selected_column: Column::Monitor,
                    ..s
                }
            } else if num_tracks > 0 {
                NavState {
                    selected_on_mix_row: false,
                    selected_track: (num_tracks - 1) as usize,
                    ..s
                }
            } else {
                NavState { selected_on_mix_row: false, ..s }
            }
        } else if s.in_playback_section {
            if s.selected_playback_track > 0 {
                NavState {
                    selected_playback_track: (s.selected_playback_track - 1) as usize,
                    ..s
                }
            } else if num_tracks > 0 {
                NavState {
                    in_playback_section: false,
                    selected_track: (num_tracks - 1) as usize,
                    ..s
                }
            } else {
                NavState { in_playback_section: false, ..s }
            }
        } else if s.selected_track > 0 {
            NavState { selected_track: (s.selected_track - 1) as usize, ..s }
        } else {
            s
        }
    }

    /// The cursor after one step down: input tracks to playback (or the
    /// mix row when there are none), playback to the mix row, which is the
    /// end.
    pub open spec fn down_step(s: NavState, num_tracks: int, num_playback: int) -> NavState {
        if s.selected_on_mix_row {
            s
        } else if s.in_playback_section {
            if s.selected_playback_track + 1 < num_playback {
                NavState {
                    selected_playback_track: (s.selected_playback_track + 1) as usize,
                    ..s
                }
            } else {
                NavState {
                    in_playback_section: false,
                    selected_on_mix_row: true,
                    selected_column: Column::Arm,
                    ..s
                }
            }
        } else if s.selected_track + 1 < num_tracks {
            NavState { selected_track: (s.selected_track + 1) as usize, ..s }
        } else if num_playback > 0 {
            NavState {
                selected_column: if s.selected_column == Column::Arm {
                    Column::Monitor
                } else {
                    s.selected_column
                },
                in_playback_section: true,
                selected_playback_track: 0,
                ..s
            }
        } else {
            NavState { selected_on_mix_row: true, selected_column: Column::Arm, ..s }
        }
    }

    /// Move the cursor up, or in edit mode ask for a level increase.
    pub fn move_up(&mut self, num_tracks: usize, num_playback: usize) -> (action: NavAction)
        requires
            old(self).selected_playback_track < usize::MAX,
        ensures
            old(self).edit_mode ==> *final(self) == *old(self) && action == (
            if old(self).selected_column == Column::Level {
                NavAction::IncreaseLevel
            } else {
                NavAction::Navigate
            }),
            !old(self).edit_mode ==> *final(self) == NavState::up_step(
                *old(self),
                num_tracks as int,
                num_playback as int,
            ) && action == NavAction::Navigate,
    {
        if self.edit_mode {
            if matches!(self.selected_column, Column::Level) {
                NavAction::IncreaseLevel
            } else {
                NavAction::Navigate
            }
        } else {
            if self.selected_on_mix_row {
                self.selected_on_mix_row = false;
                if num_playback > 0 {
                    self.in_playback_section = true;
                    self.selected_playback_track = num_playback - 1;
                    self.selected_column = Column::Monitor;
                } else if num_tracks > 0 {
                    self.selected_track = num_tracks - 1;
                }
            } else if self.in_playback_section {
                if self.selected_playback_track > 0 {
                    self.selected_playback_track = self.selected_playback_track - 1;
                } else {
                    self.in_playback_section = false;
                    if num_tracks > 0 {
                        self.selected_track = num_tracks - 1;
                    }
                }
            } else if self.selected_track > 0 {
                self.selected_track = self.selected_track - 1;
            }
            NavAction::Navigate
        }
    }

    /// Move the cursor down, or in edit mode ask for a level decrease.
    pub fn move_down(&mut self, num_tracks: usize, num_playback: usize) -> (action: NavAction)
        requires
            old(self).selected_track < usize::MAX,
            old(self).selected_playback_track < usize::MAX,
        ensures
            old(self).edit_mode ==> *final(self) == *old(self) && action == (
            if old(self).selected_column == Column::Level {
                NavAction::DecreaseLevel
            } else {
                NavAction::Navigate
            }),
            !old(self).edit_mode ==> *final(self) == NavState::down_step(
                *old(self),
                num_tracks as int,
                num_playback as int,
            ) && action == NavAction::Navigate,
    {
        if self.edit_mode {
            if matches!(self.selected_column, Column::Level) {
                NavAction::DecreaseLevel
            } else {
                NavAction::Navigate
            }
        } else {
            if self.selected_on_mix_row {
                // The mix row is the end of the table.
            } else if self.in_playback_section {
                if self.selected_playback_track + 1 < num_playback {
                    self.selected_playback_track = self.selected_playback_track + 1;
                } else {
                    self.in_playback_section = false;
                    self.selected_on_mix_row = true;
                    self.selected_column = Column::Arm;
                }
            } else if self.selected_track + 1 < num_tracks {
                self.selected_track = self.selected_track + 1;
            } else if num_playback > 0 {
                if matches!(self.selected_column, Column::Arm) {
                    self.selected_column = Column::Monitor;
                }
                self.in_playback_section = true;
                self.selected_playback_track = 0;
            } else {
                self.selected_on_mix_row = true;
                self.selected_column = Column::Arm;
            }
            NavAction::Navigate
        }
    }

    /// Move the cursor one column left, or in edit mode ask for a pan
    /// step. The mix row has only its arm column; the playback section has
    /// no arm column.
    pub fn move_left(&mut self) -> (action: NavAction)
        ensures
            old(self).edit_mode ==> *final(self) == *old(self) && action == (
            if old(self).selected_column == Column::Pan {
                NavAction::PanLeft
            } else {
                NavAction::Navigate
            }),
            !old(self).edit_mode ==> action == NavAction::Navigate && *final(self) == (
            if old(self).selected_on_mix_row {
                *old(self)
            } else if old(self).in_playback_section {
                NavState {
                    selected_column: if old(self).selected_column == Column::Monitor
                        || old(self).selected_column == Column::Arm {
                        old(self).selected_column
                    } else {
                        column_left(old(self).selected_column)
                    },
                    ..*old(self)
                }
            } else {
                NavState { selected_column: column_left(old(self).selected_column), ..*old(self) }
            }),
    {
        if self.edit_mode {
            if matches!(self.selected_column, Column::Pan) {
                NavAction::PanLeft
            } else {
                NavAction::Navigate
            }
        } else {
            if self.selected_on_mix_row {
                // Single column; nothing to the left.
            } else if self.in_playback_section {
                self.selected_column = match self.selected_column {
                    Column::Arm => Column::Arm,
                    Column::Monitor => Column::Monitor,
                    Column::Solo => Column::Monitor,
                    Column::Level => Column::Solo,
                    Column::Pan => Column::Level,
                };
            } else {
                self.selected_column = match self.selected_column {
                    Column::Arm => Column::Arm,
                    Column::Monitor => Column::Arm,
                    Column::Solo => Column::Monitor,
                    Column::Level => Column::Solo,
                    Column::Pan => Column::Level,
                };
            }
            NavAction::Navigate
        }
    }

    /// Move the cursor one column right, or in edit mode ask for a pan
    /// step.
    pub fn move_right(&mut self) -> (action: NavAction)
        ensures
            old(self).edit_mode ==> *final(self) == *old(self) && action == (
            if old(self).selected_column == Column::Pan {
                NavAction::PanRight
            } else {
                NavAction::Navigate
            }),
            !old(self).edit_mode ==> action == NavAction::Navigate && *final(self) == (
            if old(self).selected_on_mix_row {
                *old(self)
            } else if old(self).in_playback_section {
                NavState {
                    selected_column: if old(self).selected_column == Column::Arm {
                        Column::Arm
                    } else {
                        column_right(old(self).selected_column)
                    },
                    ..*old(self)
                }
            } else {
                NavState { selected_column: column_right(old(self).selected_column), ..*old(self) }
            }),
    {
        if self.edit_mode {
            if matches!(self.selected_column, Column::Pan) {
                NavAction::PanRight
            } else {
                NavAction::Navigate
            }
        } else {
            if self.selected_on_mix_row {
                // Single column; nothing to the right.
            } else if self.in_playback_section {
                self.selected_column = match self.selected_column {
                    Column::Arm => Column::Arm,
                    Column::Monitor => Column::Solo,
                    Column::Solo => Column::Level,
                    Column::Level => Column::Pan,
                    Column::Pan => Column::Pan,
                };
            } else {
                self.selected_column = match self.selected_column {
                    Column::Arm => Column::Monitor,
                    Column::Monitor => Column::Solo,
                    Column::Solo => Column::Level,
                    Column::Level => Column::Pan,
                    Column::Pan => Column::Pan,
                };
            }
            NavAction::Navigate
        }
    }

    /// Jump to the first input track. Does nothing in edit mode.
    pub fn jump_to_first(&mut self)
        ensures
            old(self).edit_mode ==> *final(self) == *old(self),
            !old(self).edit_mode ==> *final(self) == (NavState {
                selected_track: 0,
                selected_on_mix_row: false,
                ..*old(self)
            }),
    {
        if !self.edit_mode {
            self.selected_track = 0;
            self.selected_on_mix_row = false;
        }
    }

    /// Jump to the mix row at the end of the table. Does nothing in edit
    /// mode.
    pub fn jump_to_last(&mut self)
        ensures
            old(self).edit_mode ==> *final(self) == *old(self),
            !old(self).edit_mode ==> *final(self) == (NavState {
                selected_on_mix_row: true,
                selected_column: Column::Arm,
                ..*old(self)
            }),
    {
        if !self.edit_mode {
            self.selected_on_mix_row = true;
            self.selected_column = Column::Arm;
        }
    }

    /// Jump to the leftmost column of the current row.
    pub fn jump_to_leftmost(&mut self)
        ensures
            old(self).edit_mode ==> *final(self) == *old(self),
            !old(self).edit_mode ==> *final(self) == (NavState {
                selected_column: if old(self).selected_on_mix_row {
                    Column::Arm
                } else if old(self).in_playback_section {
                    Column::Monitor
                } else {
                    Column::Arm
                },
                ..*old(self)
            }),
    {
        if !self.edit_mode {
            if self.selected_on_mix_row {
                self.selected_column = Column::Arm;
            } else if self.in_playback_section {
                self.selected_column = Column::Monitor;
            } else {
                self.selected_column = Column::Arm;
            }
        }
    }

    /// Jump to the rightmost column of the current row.
    pub fn jump_to_rightmost(&mut self)
        ensures
            old(self).edit_mode ==> *final(self) == *old(self),
            !old(self).edit_mode ==> *final(self) == (NavState {
                selected_column: if old(self).selected_on_mix_row {
                    Column::Arm
                } else {
                    Column::Pan
                },
                ..*old(self)
            }),
    {
        if !self.edit_mode {
            if self.selected_on_mix_row {
                self.selected_column = Column::Arm;
            } else {
                self.selected_column = Column::Pan;
            }
        }
    }

    /// Jump up five tracks: from the mix row, land five tracks before the
    /// end of the input section.
    pub fn jump_up_5(&mut self, num_tracks: usize)
        ensures
            old(self).edit_mode ==> *final(self) == *old(self),
            !old(self).edit_mode ==> *final(self) == (if old(self).selected_on_mix_row {
                NavState {
                    selected_on_mix_row: false,
                    selected_track: if num_tracks > 0 {
                        if num_tracks >= 6 {
                            (num_tracks - 6) as usize
                        } else {
                            0
                        }
                    } else {
                        old(self).selected_track
                    },
                    ..*old(self)
                }
            } else {
                NavState {
                    selected_track: if old(self).selected_track >= 5 {
                        (old(self).selected_track - 5) as usize
                    } else {
                        0
                    },
                    ..*old(self)
                }
            }),
    {
        if !self.edit_mode {
            if self.selected_on_mix_row {
                self.selected_on_mix_row = false;
                if num_tracks > 0 {
                    self.selected_track = if num_tracks >= 6 {
                        num_tracks - 6
                    } else {
                        0
                    };
                }
            } else {
                self.selected_track = if self.selected_track >= 5 {
                    self.selected_track - 5
                } else {
                    0
                };
            }
        }
    }

    /// Jump down five tracks; past the last track, land on the mix row.
    pub fn jump_down_5(&mut self, num_tracks: usize)
        requires
            old(self).selected_track + 5 <= usize::MAX,
        ensures
            old(self).edit_mode ==> *final(self) == *old(self),
            !old(self).edit_mode ==> *final(self) == (if old(self).selected_on_mix_row
                || num_tracks == 0 {
                *old(self)
            } else if old(self).selected_track + 5 + 1 >= num_tracks {
                NavState {
                    selected_on_mix_row: true,
                    selected_column: Column::Arm,
                    ..*old(self)
                }
            } else {
                NavState { selected_track: (old(self).selected_track + 5) as usize, ..*old(self) }
            }),
    {
        if !self.edit_mode {
            if self.selected_on_mix_row {
                // Already at the end.
            } else if num_tracks > 0 {
                let target = self.selected_track + 5;
                if target >= num_tracks - 1 {
                    self.selected_on_mix_row = true;
                    self.selected_column = Column::Arm;
                } else {
                    self.selected_track = target;
                }
            }
        }
    }

    /// Leave edit mode, or enter it on an editable column.
    pub fn set_edit_mode(&mut self, edit: bool)
        ensures
            *final(self) == (NavState { edit_mode: edit, ..*old(self) }),
    {
        self.edit_mode = edit;
    }
}

} // verus!
