use audio_waterfall::history::VisualizationHistory;
use audio_waterfall::intensity::{Color, ColorRow};

fn row_of(level: u8) -> ColorRow {
    ColorRow::from_cells(vec![Color { r: level, g: 0, b: 255 - level }; 3])
}

fn levels(history: &VisualizationHistory) -> Vec<u8> {
    history.rows().iter().map(|row| row.cells()[0].r).collect()
}

#[test]
fn history_starts_empty() {
    let history = VisualizationHistory::new(5);
    assert_eq!(history.len(), 0);
    assert_eq!(history.max_rows(), 5);
    assert!(history.latest().is_none());
    assert!(history.row(0).is_none());
    assert!(history.rows().is_empty());
}

#[test]
fn history_keeps_rows_in_arrival_order() {
    let mut history = VisualizationHistory::new(5);
    history.push_row(row_of(1));
    history.push_row(row_of(2));
    history.push_row(row_of(3));
    assert_eq!(levels(&history), vec![1, 2, 3]);
    assert_eq!(history.latest(), Some(&row_of(3)));
    assert_eq!(history.row(0), Some(&row_of(1)));
    assert_eq!(history.row(2), Some(&row_of(3)));
    assert!(history.row(3).is_none());
}

#[test]
fn history_beyond_max_rows_keeps_the_most_recent() {
    let mut history = VisualizationHistory::new(3);
    for level in 1..=10u8 {
        history.push_row(row_of(level));
        assert!(history.len() <= 3);
    }
    assert_eq!(levels(&history), vec![8, 9, 10]);
    assert_eq!(history.latest(), Some(&row_of(10)));
}

#[test]
fn history_evicts_the_oldest_row_first() {
    let mut history = VisualizationHistory::new(2);
    history.push_row(row_of(10));
    history.push_row(row_of(20));
    history.push_row(row_of(30));
    assert_eq!(levels(&history), vec![20, 30]);
    history.push_row(row_of(40));
    assert_eq!(levels(&history), vec![30, 40]);
}

#[test]
fn history_of_one_row_holds_the_latest_only() {
    let mut history = VisualizationHistory::new(1);
    history.push_row(row_of(5));
    history.push_row(row_of(6));
    assert_eq!(levels(&history), vec![6]);
}

#[test]
fn history_of_no_rows_holds_nothing() {
    let mut history = VisualizationHistory::new(0);
    history.push_row(row_of(5));
    assert_eq!(history.len(), 0);
    assert!(history.latest().is_none());
}

#[test]
fn history_of_a_hundred_rows() {
    let mut history = VisualizationHistory::new(100);
    for n in 0..250u32 {
        history.push_row(row_of((n % 251) as u8));
    }
    assert_eq!(history.len(), 100);
    let expected: Vec<u8> = (150..250u32).map(|n| n as u8).collect();
    assert_eq!(levels(&history), expected);
}

#[test]
fn history_clear_keeps_the_bound() {
    let mut history = VisualizationHistory::new(2);
    history.push_row(row_of(1));
    history.clear();
    assert_eq!(history.len(), 0);
    assert_eq!(history.max_rows(), 2);
    history.push_row(row_of(2));
    assert_eq!(levels(&history), vec![2]);
}

#[test]
fn history_rows_can_be_copied_for_rendering() {
    let mut history = VisualizationHistory::new(4);
    history.push_row(row_of(1));
    history.push_row(row_of(2));
    let copied: Vec<ColorRow> = history.rows().to_vec();
    let newest: Option<ColorRow> = history.latest().cloned();
    history.push_row(row_of(3));
    assert_eq!(copied, vec![row_of(1), row_of(2)]);
    assert_eq!(newest, Some(row_of(2)));
    let newest_first: Vec<u8> = copied.iter().rev().map(|row| row.cells()[0].r).collect();
    assert_eq!(newest_first, vec![2, 1]);
}
