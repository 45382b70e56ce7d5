use vstd::prelude::*;

verus! {

/// The texts with which a plot of a filtered stream is written: where the image goes,
/// its title, the two axis labels, and the legend entries of the two series drawn
/// against the y axis (as a rule the raw samples and the filter's estimate).
#[derive(Clone, Debug)]
pub struct PlotLabels {
    pub plot_pathname: String,
    pub title: String,
    pub x_axis_label: String,
    pub y_axis_label: String,
    pub y_axis_data1_label: String,
    pub y_axis_data2_label: String,
}

} // verus!
