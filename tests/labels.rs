use kalman_filter_for_beginners_rust::labels::PlotLabels;

#[test]
fn plot_labels_keep_their_texts() {
    let labels = PlotLabels {
        plot_pathname: String::from("plots/average_filter.png"),
        title: String::from("Average filter"),
        x_axis_label: String::from("Time [sec]"),
        y_axis_label: String::from("Voltage [V]"),
        y_axis_data1_label: String::from("Measurements"),
        y_axis_data2_label: String::from("Average"),
    };
    let copy = labels.clone();
    assert_eq!(copy.title, "Average filter");
    assert_eq!(copy.y_axis_data2_label, "Average");
    assert_eq!(copy.plot_pathname, labels.plot_pathname);
}
