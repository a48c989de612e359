//! The chart: its style, and the plan of what is drawn for a series: the
//! extent of the axis and one labelled, coloured line of points per metric.

use vstd::prelude::*;
use vstd::string::*;
use crate::align::AlignedSeries;
use crate::reading::Metric;

verus! {

/// A colour by its red, green and blue parts.
#[derive(Clone, Copy, Debug, PartialEq, Eq, Structural)]
pub struct Rgb {
    pub r: u8,
    pub g: u8,
    pub b: u8,
}

/// How the chart looks.
#[derive(Clone, Debug, PartialEq)]
pub struct ChartStyle {
    pub font_family: String,
    /// The size of labels and legend; the title is a quarter larger.
    pub font_size: u32,
    pub background: Rgb,
    pub foreground: Rgb,
    pub ram_color: Rgb,
    pub cpu_color: Rgb,
    pub gpu_color: Rgb,
    /// The canvas in pixels.
    pub width: u32,
    pub height: u32,
    pub margin: u32,
    /// The room left for the labels of each axis.
    pub label_area: u32,
    /// The range of the value axis, in percent.
    pub y_min: u32,
    pub y_max: u32,
}

impl ChartStyle {
    /// The canvas is not empty, the value axis has an extent, and the title's
    /// size can be computed.
    pub open spec fn wf(self) -> bool {
        &&& self.width > 0
        &&& self.height > 0
        &&& self.y_min < self.y_max
        &&& self.font_size * 5 <= u32::MAX
    }

    /// The colour of the line of a metric.
    pub open spec fn color_of(self, metric: Metric) -> Rgb {
        match metric {
            Metric::Ram => self.ram_color,
            Metric::Cpu => self.cpu_color,
            Metric::Gpu => self.gpu_color,
        }
    }

    /// The style of the usage chart: black on white, 1200 by 900 pixels, a
    /// percentage scale, and blue, red and green lines.
    pub fn standard() -> (style: ChartStyle)
        ensures
            style.wf(),
            style.font_family@ == "Ubuntu Mono"@,
            style.font_size == 24,
            style.background == (Rgb { r: 255, g: 255, b: 255 }),
            style.foreground == (Rgb { r: 0, g: 0, b: 0 }),
            style.ram_color == (Rgb { r: 0, g: 0, b: 255 }),
            style.cpu_color == (Rgb { r: 255, g: 0, b: 0 }),
            style.gpu_color == (Rgb { r: 0, g: 255, b: 0 }),
            style.width == 1200,
            style.height == 900,
            style.margin == 24,
            style.label_area == 50,
            style.y_min == 0,
            style.y_max == 100,
    {
        ChartStyle {
            font_family: String::from_str("Ubuntu Mono"),
            font_size: 24,
            background: Rgb { r: 255, g: 255, b: 255 },
            foreground: Rgb { r: 0, g: 0, b: 0 },
            ram_color: Rgb { r: 0, g: 0, b: 255 },
            cpu_color: Rgb { r: 255, g: 0, b: 0 },
            gpu_color: Rgb { r: 0, g: 255, b: 0 },
            width: 1200,
            height: 900,
            margin: 24,
            label_area: 50,
            y_min: 0,
            y_max: 100,
        }
    }

    /// The size of the title: five quarters of the font size, rounded down.
    pub fn title_font_size(&self) -> (size: u32)
        requires
            self.wf(),
        ensures
            size == self.font_size * 5 / 4,
    {
        self.font_size * 5 / 4
    }

    /// The colour of the line of a metric.
    pub fn line_color(&self, metric: Metric) -> (color: Rgb)
        ensures
            color == self.color_of(metric),
    {
        match metric {
            Metric::Ram => self.ram_color,
            Metric::Cpu => self.cpu_color,
            Metric::Gpu => self.gpu_color,
        }
    }
}

impl Metric {
    /// The name of the metric in the legend.
    pub open spec fn legend(self) -> Seq<char> {
        match self {
            Metric::Ram => "RAM"@,
            Metric::Cpu => "CPU"@,
            Metric::Gpu => "GPU"@,
        }
    }

    /// The name of the metric in the legend.
    pub fn label(self) -> (text: &'static str)
        ensures
            text@ == self.legend(),
    {
        match self {
            Metric::Ram => "RAM",
            Metric::Cpu => "CPU",
            Metric::Gpu => "GPU",
        }
    }
}

/// One line of the chart.
#[derive(Clone, Debug, PartialEq)]
pub struct Line<V> {
    pub metric: Metric,
    pub label: String,
    pub color: Rgb,
    /// Position and reading of each sample, in order.
    pub points: Vec<(usize, V)>,
}

/// What is drawn: the horizontal axis runs from zero to `x_end`, and the
/// lines are laid over one another in their order.
#[derive(Clone, Debug, PartialEq)]
pub struct ChartPlan<V> {
    pub x_end: usize,
    pub lines: Vec<Line<V>>,
}

impl<V> AlignedSeries<V> {
    /// The readings of one metric.
    pub open spec fn readings(self, metric: Metric) -> Seq<V> {
        match metric {
            Metric::Ram => self.ram@,
            Metric::Cpu => self.cpu@,
            Metric::Gpu => self.gpu@,
        }
    }
}

/// `line` is the line of `metric`: named and coloured for it, with one point
/// for each sample, its position paired with its reading.
pub open spec fn line_drawn<V>(
    series: AlignedSeries<V>,
    style: ChartStyle,
    metric: Metric,
    line: Line<V>,
) -> bool {
    &&& line.metric == metric
    &&& line.label@ == metric.legend()
    &&& line.color == style.color_of(metric)
    &&& line.points@.len() == series.count()
    &&& forall|i: int|
        0 <= i < series.count() ==> #[trigger] line.points@[i] == (
            series.x_index@[i],
            series.readings(metric)[i],
        )
}

/// Pairs the positions of a series with the readings of one metric.
pub fn line_of<V: Copy>(series: &AlignedSeries<V>, style: &ChartStyle, metric: Metric) -> (line: Line<V>)
    requires
        series.wf(),
    ensures
        line_drawn(*series, *style, metric, line),
{
    let values = match metric {
        Metric::Ram => &series.ram,
        Metric::Cpu => &series.cpu,
        Metric::Gpu => &series.gpu,
    };
    let n = series.x_index.len();
    let mut points: Vec<(usize, V)> = Vec::new();
    let mut i: usize = 0;
    while i < n
        invariant
            i <= n,
            n == series.count(),
            values@ == series.readings(metric),
            values@.len() == n,
            points@.len() == i,
            forall|j: int|
                0 <= j < i ==> #[trigger] points@[j] == (series.x_index@[j], values@[j]),
        decreases n - i,
    {
        points.push((series.x_index[i], values[i]));
        i += 1;
    }
    Line {
        metric,
        label: String::from_str(metric.label()),
        color: style.line_color(metric),
        points,
    }
}

/// Plans the chart of a series: the axis spans its samples, and the lines of
/// RAM, CPU and GPU follow in this order. A series without samples gives an
/// axis of no extent and three lines without points.
pub fn plan_chart<V: Copy>(series: &AlignedSeries<V>, style: &ChartStyle) -> (plan: ChartPlan<V>)
    requires
        series.wf(),
    ensures
        plan.x_end == series.count(),
        plan.lines@.len() == 3,
        line_drawn(*series, *style, Metric::Ram, plan.lines@[0]),
        line_drawn(*series, *style, Metric::Cpu, plan.lines@[1]),
        line_drawn(*series, *style, Metric::Gpu, plan.lines@[2]),
{
    let mut lines: Vec<Line<V>> = Vec::new();
    lines.push(line_of(series, style, Metric::Ram));
    lines.push(line_of(series, style, Metric::Cpu));
    lines.push(line_of(series, style, Metric::Gpu));
    ChartPlan { x_end: series.x_index.len(), lines }
}

} // verus!
