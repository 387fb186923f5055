use statusbar::components::clock::{Clock, ClockTime, DEFAULT_CLOCK_FORMAT};
use statusbar::components::metrics::{cpu_text, mem_text};
use statusbar::status_bar::{
    compose, Atom, ChangeProperty, Component, ComponentError, ConnectFailure, Connected, Error,
    PropMode, StatusBar,
};

/// A source that shows a fixed text, or fails to render where it has none,
/// and counts its refreshes.
struct Fixed {
    text: Option<String>,
    fails_refresh: bool,
    refreshed: u32,
}

impl Fixed {
    fn text(text: &str) -> Fixed {
        Fixed { text: Some(text.to_string()), fails_refresh: false, refreshed: 0 }
    }

    fn failing_render() -> Fixed {
        Fixed { text: None, fails_refresh: false, refreshed: 0 }
    }

    fn failing_refresh(text: &str) -> Fixed {
        Fixed { text: Some(text.to_string()), fails_refresh: true, refreshed: 0 }
    }
}

impl Component for Fixed {
    fn tick(&mut self) -> Result<(), ComponentError> {
        self.refreshed += 1;
        if self.fails_refresh {
            Err(ComponentError { message: format!("cannot sample {:?}", self.text) })
        } else {
            Ok(())
        }
    }

    fn output(&self) -> Result<String, ComponentError> {
        match &self.text {
            Some(text) => Ok(text.clone()),
            None => Err(ComponentError { message: "nothing to show".to_string() }),
        }
    }
}

fn one_screen() -> Result<Connected, ConnectFailure> {
    Ok(Connected { screen_num: 0, roots: vec![0x1d4] })
}

fn bar_of(sources: Vec<Fixed>) -> StatusBar<Fixed> {
    let mut bar = StatusBar::new(one_screen()).unwrap();
    for source in sources {
        bar.add_component(source);
    }
    bar
}

#[test]
fn render_of_no_sources_is_empty() {
    let bar = bar_of(vec![]);
    assert_eq!(bar.get_status().unwrap(), "");
}

#[test]
fn render_of_one_source_has_no_space() {
    let bar = bar_of(vec![Fixed::text("alone")]);
    assert_eq!(bar.get_status().unwrap(), "[alone]");
}

#[test]
fn render_joins_fragments_in_insertion_order() {
    let bar = bar_of(vec![Fixed::text("a"), Fixed::text("b"), Fixed::text("c")]);
    assert_eq!(bar.get_status().unwrap(), "[a] [b] [c]");
}

#[test]
fn render_of_an_empty_text_keeps_its_brackets() {
    let bar = bar_of(vec![Fixed::text(""), Fixed::text("x")]);
    assert_eq!(bar.get_status().unwrap(), "[] [x]");
}

#[test]
fn single_failing_source_renders_fallback() {
    let bar = bar_of(vec![Fixed::failing_render()]);
    assert_eq!(bar.get_status().unwrap(), "[N/A]");
}

#[test]
fn failing_source_leaves_its_neighbours_alone() {
    let bar = bar_of(vec![Fixed::text("left"), Fixed::failing_render(), Fixed::text("right")]);
    assert_eq!(bar.get_status().unwrap(), "[left] [N/A] [right]");
    let healthy = bar_of(vec![Fixed::text("left"), Fixed::text("mid"), Fixed::text("right")]);
    assert_eq!(healthy.get_status().unwrap(), "[left] [mid] [right]");
}

#[test]
fn compose_takes_renders_as_they_are() {
    assert_eq!(compose(&vec![]), "");
    assert_eq!(compose(&vec![None]), "[N/A]");
    assert_eq!(compose(&vec![Some("é".to_string()), None, Some("z".to_string())]), "[é] [N/A] [z]");
    assert_eq!(compose(&vec![Some("N/A".to_string()), None]), "[N/A] [N/A]");
}

#[test]
fn end_to_end_memory_cpu_clock() {
    let used_memory = 3_200_000_u64 as f64 / 1000.0 / 1000.0;
    let total_memory = 16_000_000_u64 as f64 / 1000.0 / 1000.0;
    let memory = mem_text(&format!("{:.1}", used_memory), &format!("{:.1}", total_memory));
    let cpu = cpu_text(&format!("{:.2}", 12.345_f32));
    let time = ClockTime { year: 2024, month: 1, day: 1, hour: 9, minute: 5, second: 3 };
    let clock = Clock::render_time(&time).unwrap();
    let bar = bar_of(vec![Fixed::text(&memory), Fixed::text(&cpu), Fixed::text(&clock)]);
    assert_eq!(
        bar.get_status().unwrap(),
        "[MEM: 3.2/16.0Gb] [CPU: 12.35%] [Jan 01 09:05:03AM]"
    );
}

#[test]
fn tick_refreshes_every_source_once() {
    let mut bar = bar_of(vec![Fixed::text("a"), Fixed::text("b"), Fixed::text("c")]);
    assert!(bar.tick().is_ok());
    assert!(bar.tick().is_ok());
    assert_eq!(bar.get_status().unwrap(), "[a] [b] [c]");
}

#[test]
fn tick_stops_at_the_first_failure() {
    let mut bar: StatusBar<Probe> = StatusBar::new(one_screen()).unwrap();
    let log = std::rc::Rc::new(std::cell::RefCell::new(Vec::new()));
    bar.add_component(Probe { name: 0, fails: false, log: log.clone() });
    bar.add_component(Probe { name: 1, fails: true, log: log.clone() });
    bar.add_component(Probe { name: 2, fails: false, log: log.clone() });
    let outcome = bar.tick();
    assert_eq!(outcome.unwrap_err().message, "source 1 failed");
    assert_eq!(*log.borrow(), vec![0, 1]);
}

#[test]
fn tick_goes_in_insertion_order() {
    let mut bar: StatusBar<Probe> = StatusBar::new(one_screen()).unwrap();
    let log = std::rc::Rc::new(std::cell::RefCell::new(Vec::new()));
    for name in [7, 3, 5] {
        bar.add_component(Probe { name, fails: false, log: log.clone() });
    }
    assert!(bar.tick().is_ok());
    assert_eq!(*log.borrow(), vec![7, 3, 5]);
    assert_eq!(bar.get_status().unwrap(), "[7] [3] [5]");
}

#[test]
fn tick_failure_is_the_failing_source_s_error() {
    let mut bar = bar_of(vec![Fixed::text("a"), Fixed::failing_refresh("b")]);
    let error = bar.tick().unwrap_err();
    assert_eq!(error.message, "cannot sample Some(\"b\")");
}

/// A source that writes its name to a shared log on each refresh.
struct Probe {
    name: u32,
    fails: bool,
    log: std::rc::Rc<std::cell::RefCell<Vec<u32>>>,
}

impl Component for Probe {
    fn tick(&mut self) -> Result<(), ComponentError> {
        self.log.borrow_mut().push(self.name);
        if self.fails {
            Err(ComponentError { message: format!("source {} failed", self.name) })
        } else {
            Ok(())
        }
    }

    fn output(&self) -> Result<String, ComponentError> {
        Ok(format!("{}", self.name))
    }
}

#[test]
fn new_hands_on_a_failed_connection() {
    let made: Result<StatusBar<Fixed>, Error> = StatusBar::new(Err(ConnectFailure::ClosedParseErr));
    assert!(matches!(
        made,
        Err(Error::ConnectionError { source: ConnectFailure::ClosedParseErr })
    ));
}

#[test]
fn new_rejects_a_screen_the_display_lacks() {
    let beyond: Result<StatusBar<Fixed>, Error> =
        StatusBar::new(Ok(Connected { screen_num: 2, roots: vec![10, 20] }));
    assert!(matches!(beyond, Err(Error::ScreenNotFound { screen_num: 2 })));
    let negative: Result<StatusBar<Fixed>, Error> =
        StatusBar::new(Ok(Connected { screen_num: -1, roots: vec![10, 20] }));
    assert!(matches!(negative, Err(Error::ScreenNotFound { screen_num: -1 })));
    let none: Result<StatusBar<Fixed>, Error> =
        StatusBar::new(Ok(Connected { screen_num: 0, roots: vec![] }));
    assert!(matches!(none, Err(Error::ScreenNotFound { screen_num: 0 })));
}

#[test]
fn new_picks_the_preferred_screen_s_root() {
    let bar: StatusBar<Fixed> =
        StatusBar::new(Ok(Connected { screen_num: 1, roots: vec![10, 20, 30] })).unwrap();
    assert_eq!(bar.clear_status().window, 20);
    assert_eq!(bar.get_status().unwrap(), "");
}

fn assert_renames(request: &ChangeProperty, window: u32) {
    assert_eq!(request.mode, PropMode::Replace);
    assert_eq!(request.window, window);
    assert_eq!(request.property, Atom::WmName);
    assert_eq!(request.kind, Atom::String);
}

#[test]
fn set_status_replaces_the_root_name_with_the_bytes() {
    let bar = bar_of(vec![]);
    let request = bar.set_status("[a] [é]".to_string());
    assert_renames(&request, 0x1d4);
    assert_eq!(request.data, "[a] [é]".as_bytes().to_vec());
    assert_eq!(request.data.len(), 8);
}

#[test]
fn clear_status_replaces_the_root_name_with_nothing() {
    let bar = bar_of(vec![Fixed::text("still here")]);
    let request = bar.clear_status();
    assert_renames(&request, 0x1d4);
    assert!(request.data.is_empty());
}

#[test]
fn clock_pattern_is_the_fixed_one() {
    assert_eq!(DEFAULT_CLOCK_FORMAT, "%b %d %I:%M:%S%p");
}

#[test]
fn clock_renders_a_given_time() {
    let afternoon = ClockTime { year: 2023, month: 12, day: 31, hour: 23, minute: 59, second: 59 };
    assert_eq!(Clock::render_time(&afternoon).unwrap(), "Dec 31 11:59:59PM");
    let midnight = ClockTime { year: 2023, month: 7, day: 4, hour: 0, minute: 0, second: 0 };
    assert_eq!(Clock::render_time(&midnight).unwrap(), "Jul 04 12:00:00AM");
    let noon = ClockTime { year: 2023, month: 7, day: 4, hour: 12, minute: 30, second: 1 };
    assert_eq!(Clock::render_time(&noon).unwrap(), "Jul 04 12:30:01PM");
}

#[test]
fn clock_refuses_what_is_no_date() {
    let no_day = ClockTime { year: 2023, month: 2, day: 30, hour: 1, minute: 1, second: 1 };
    assert_eq!(Clock::render_time(&no_day), None);
    assert!(Clock::render_read(&no_day).is_err());
    let no_hour = ClockTime { year: 2023, month: 2, day: 3, hour: 24, minute: 0, second: 0 };
    assert_eq!(Clock::render_time(&no_hour), None);
}

#[test]
fn clock_source_renders_the_current_time() {
    let mut bar: StatusBar<Clock> = StatusBar::new(one_screen()).unwrap();
    bar.add_component(Clock);
    assert!(bar.tick().is_ok());
    let line = bar.get_status().unwrap();
    assert_eq!(line.len(), 19);
    assert!(line.starts_with('['));
    assert!(line.ends_with("M]"));
    assert_eq!(&line[7..8], " ");
    assert_eq!(&line[10..11], ":");
}

#[test]
fn cpu_text_wraps_the_percentage() {
    assert_eq!(cpu_text("12.34"), "CPU: 12.34%");
    assert_eq!(cpu_text(""), "CPU: %");
    assert_eq!(cpu_text(&format!("{:.2}", 100.0_f32)), "CPU: 100.00%");
}

#[test]
fn mem_text_wraps_the_two_figures() {
    assert_eq!(mem_text("3.2", "16.0"), "MEM: 3.2/16.0Gb");
    assert_eq!(mem_text("", ""), "MEM: /Gb");
    let megabytes = 3_200_000_000_u64 as f64 / 1000.0 / 1000.0;
    assert_eq!(mem_text(&format!("{:.1}", megabytes), "16000.0"), "MEM: 3200.0/16000.0Gb");
}
