//! The user's configuration as plain values: default pattern, default zone and
//! named patterns. Reading it from disk and the environment happens outside
//! the library.

use vstd::prelude::*;

use crate::pipeline::{names_unique, preset_table, Preset, PresetView};

verus! {

/// The user configuration.
#[derive(Debug)]
pub struct Config {
    /// Default output pattern or preset name.
    pub format: String,
    /// Default time-zone identifier; empty for the machine's own zone.
    pub timezone: String,
    /// Named patterns, as (name, pattern) pairs.
    pub formats: Option<Vec<(String, String)>>,
}

impl Config {
    /// The named patterns as plain values, in order; none when the table is absent.
    pub open spec fn format_table(&self) -> Seq<PresetView> {
        match self.formats {
            Some(v) => v@.map_values(|e: (String, String)| (e.0@, e.1@)),
            None => Seq::empty(),
        }
    }

    /// The names of the table are distinct, as the keys of a configuration table are.
    pub open spec fn wf(&self) -> bool {
        names_unique(self.format_table())
    }

    /// The `[formats]` table as presets, one per entry, in the table's order.
    pub fn presets(&self) -> (r: Vec<Preset>)
        ensures
            preset_table(r@) == self.format_table(),
            self.wf() ==> names_unique(preset_table(r@)),
    {
        let mut out: Vec<Preset> = Vec::new();
        match &self.formats {
            None => {},
            Some(entries) => {
                let mut i: usize = 0;
                while i < entries.len()
                    invariant
                        i <= entries@.len(),
                        self.formats == Some(*entries),
                        out@.len() == i,
                        forall|k: int| 0 <= k < i ==> #[trigger] out@[k].name@ == entries@[k].0@
                            && out@[k].format@ == entries@[k].1@,
                    decreases entries@.len() - i,
                {
                    let name = entries[i].0.clone();
                    let format = entries[i].1.clone();
                    out.push(Preset::new(name, format));
                    i = i + 1;
                }
            },
        }
        assert(preset_table(out@) =~= self.format_table());
        out
    }
}

} // verus!
