//! Dataset configuration and its builder.

use vstd::prelude::*;

verus! {

/// Output scaling used when none is configured.
pub const DEFAULT_SCALING: (usize, usize) = (1024, 1024);

/// Backend band read as red when none is configured.
pub const DEFAULT_RED_BAND: isize = 1;

/// Backend band read as green when none is configured.
pub const DEFAULT_GREEN_BAND: isize = 2;

/// Backend band read as blue when none is configured.
pub const DEFAULT_BLUE_BAND: isize = 3;

/// How a mosaic is scaled and which backend bands (1-based) carry the colours.
#[derive(Debug, Clone, Copy)]
pub struct DatasetOptions {
    pub scaling: (usize, usize),
    pub red_band_index: isize,
    pub green_band_index: isize,
    pub blue_band_index: isize,
}

/// Collects settings for a [`DatasetOptions`]; unset fields take the defaults
/// when the options are built.
#[derive(Debug, Clone, Copy)]
pub struct DatasetOptionsBuilder {
    pub scaling: Option<(usize, usize)>,
    pub red_band_index: Option<isize>,
    pub green_band_index: Option<isize>,
    pub blue_band_index: Option<isize>,
}

/// The builder with no field set.
pub open spec fn unset_builder() -> DatasetOptionsBuilder {
    DatasetOptionsBuilder {
        scaling: None,
        red_band_index: None,
        green_band_index: None,
        blue_band_index: None,
    }
}

/// The options a builder stands for: each set field, or its default.
pub open spec fn resolved(b: DatasetOptionsBuilder) -> DatasetOptions {
    DatasetOptions {
        scaling: match b.scaling {
            Some(s) => s,
            None => DEFAULT_SCALING,
        },
        red_band_index: match b.red_band_index {
            Some(i) => i,
            None => DEFAULT_RED_BAND,
        },
        green_band_index: match b.green_band_index {
            Some(i) => i,
            None => DEFAULT_GREEN_BAND,
        },
        blue_band_index: match b.blue_band_index {
            Some(i) => i,
            None => DEFAULT_BLUE_BAND,
        },
    }
}

impl PartialEq for DatasetOptions {
    fn eq(&self, o: &DatasetOptions) -> (r: bool) {
        self.scaling.0 == o.scaling.0 && self.scaling.1 == o.scaling.1 && self.red_band_index
            == o.red_band_index && self.green_band_index == o.green_band_index
            && self.blue_band_index == o.blue_band_index
    }
}

impl vstd::std_specs::cmp::PartialEqSpecImpl for DatasetOptions {
    open spec fn obeys_eq_spec() -> bool {
        true
    }

    open spec fn eq_spec(&self, o: &DatasetOptions) -> bool {
        *self == *o
    }
}

impl DatasetOptions {
    /// A builder with every field unset.
    pub fn builder() -> (r: DatasetOptionsBuilder)
        ensures
            r == unset_builder(),
    {
        DatasetOptionsBuilder::new()
    }
}

impl Default for DatasetOptionsBuilder {
    fn default() -> (r: DatasetOptionsBuilder)
        ensures
            r == unset_builder(),
    {
        DatasetOptionsBuilder {
            scaling: None,
            red_band_index: None,
            green_band_index: None,
            blue_band_index: None,
        }
    }
}

impl DatasetOptionsBuilder {
    /// A builder with every field unset.
    pub fn new() -> (r: DatasetOptionsBuilder)
        ensures
            r == unset_builder(),
    {
        DatasetOptionsBuilder {
            scaling: None,
            red_band_index: None,
            green_band_index: None,
            blue_band_index: None,
        }
    }

    /// The same builder with the output scaling set to `(x, y)`.
    pub fn set_scaling(self, x: usize, y: usize) -> (r: DatasetOptionsBuilder)
        ensures
            r == (DatasetOptionsBuilder { scaling: Some((x, y)), ..self }),
    {
        DatasetOptionsBuilder { scaling: Some((x, y)), ..self }
    }

    /// The same builder with the three colour bands set.
    pub fn set_band_indexes(self, red: isize, green: isize, blue: isize) -> (r:
        DatasetOptionsBuilder)
        ensures
            r == (DatasetOptionsBuilder {
                red_band_index: Some(red),
                green_band_index: Some(green),
                blue_band_index: Some(blue),
                ..self
            }),
    {
        DatasetOptionsBuilder {
            red_band_index: Some(red),
            green_band_index: Some(green),
            blue_band_index: Some(blue),
            ..self
        }
    }

    /// The options: every set field as given, every unset one at its default.
    pub fn build(self) -> (r: DatasetOptions)
        ensures
            r == resolved(self),
    {
        DatasetOptions {
            scaling: match self.scaling {
                Some(s) => s,
                None => DEFAULT_SCALING,
            },
            red_band_index: match self.red_band_index {
                Some(i) => i,
                None => DEFAULT_RED_BAND,
            },
            green_band_index: match self.green_band_index {
                Some(i) => i,
                None => DEFAULT_GREEN_BAND,
            },
            blue_band_index: match self.blue_band_index {
                Some(i) => i,
                None => DEFAULT_BLUE_BAND,
            },
        }
    }
}

} // verus!
