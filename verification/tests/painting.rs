use alula::{
    BoxConstraints, Color, Container, DrawCommand, Error, ErrorView, LayoutError, LayoutErrorView,
    Render, RenderError, RenderView, Size, State, StateError, Widget, WidgetError,
};
use std::cell::Cell;
use std::rc::Rc;

/// A leaf that paints one fill of its own, counts how often it was built, and
/// can be told to fail either phase.
struct Leaf {
    color: Color,
    builds: Rc<Cell<u32>>,
    build_fails: bool,
    paint_fails: bool,
}

impl Widget for Leaf {
    fn build_spec(&self, _frame: Option<RenderView>) -> (Result<(), ErrorView>, Option<RenderView>) {
        unreachable!()
    }

    fn layout_spec(&self, _constraints: BoxConstraints) -> Result<Size, LayoutErrorView> {
        unreachable!()
    }

    fn paint_spec(&self, _frame: Option<RenderView>) -> (Result<(), ErrorView>, Option<RenderView>) {
        unreachable!()
    }

    fn build(&self, _state: &mut State) -> Result<(), Error> {
        self.builds.set(self.builds.get() + 1);
        if self.build_fails {
            Err(Error::Widget(WidgetError::BuildError("no font".to_string())))
        } else {
            Ok(())
        }
    }

    fn layout(&mut self, constraints: BoxConstraints) -> Result<Size, LayoutError> {
        Ok(Size { width: constraints.min_width, height: constraints.min_height })
    }

    fn paint(&self, state: &mut State) -> Result<(), Error> {
        if self.paint_fails {
            return Err(Error::Render(RenderError::AdapterNotFound));
        }
        match state.fill_rect(Size { width: 1, height: 1 }, self.color) {
            Ok(()) => Ok(()),
            Err(e) => Err(Error::State(e)),
        }
    }
}

fn leaf(color: Color) -> (Box<Leaf>, Rc<Cell<u32>>) {
    let builds = Rc::new(Cell::new(0));
    (Box::new(Leaf { color, builds: builds.clone(), build_fails: false, paint_fails: false }), builds)
}

fn fill(width: u32, height: u32, color: Color) -> DrawCommand {
    DrawCommand::FillRect { size: Size { width, height }, color }
}

fn frame_of(mut state: State) -> Vec<DrawCommand> {
    state.end_frame().expect("the context is attached").render()
}

const RED: Color = Color { r: 255, g: 0, b: 0, a: 255 };
const GREEN: Color = Color { r: 0, g: 255, b: 0, a: 255 };
const BLUE: Color = Color { r: 0, g: 0, b: 255, a: 255 };

#[test]
fn background_comes_before_the_primitives_of_the_child() {
    let (child, _) = leaf(GREEN);
    let mut c = Container::default().child(child).color(RED).size(50, 30);
    c.layout(BoxConstraints::loose(Size { width: 200, height: 200 })).unwrap();
    let mut state = State::new(Render::new(200, 200));
    assert!(c.paint(&mut state).is_ok());
    assert_eq!(frame_of(state), vec![fill(50, 30, RED), fill(1, 1, GREEN)]);
}

#[test]
fn painting_appends_to_what_the_frame_holds() {
    let (child, _) = leaf(GREEN);
    let mut c = Container::default().child(child).color(RED).size(50, 30);
    c.layout(BoxConstraints::loose(Size { width: 200, height: 200 })).unwrap();
    let mut state = State::new(Render::new(200, 200));
    state.fill_rect(Size { width: 200, height: 200 }, BLUE).unwrap();
    assert!(c.paint(&mut state).is_ok());
    assert_eq!(
        frame_of(state),
        vec![fill(200, 200, BLUE), fill(50, 30, RED), fill(1, 1, GREEN)]
    );
}

#[test]
fn nested_backgrounds_are_painted_parent_first() {
    let (child, _) = leaf(BLUE);
    let inner = Container::default().child(child).color(GREEN).size(20, 10);
    let mut outer = Container::default().child(Box::new(inner)).color(RED).padding(5);
    let size = outer.layout(BoxConstraints::loose(Size { width: 200, height: 200 })).unwrap();
    assert_eq!(size, Size { width: 30, height: 20 });
    let mut state = State::new(Render::new(200, 200));
    assert!(outer.paint(&mut state).is_ok());
    assert_eq!(
        frame_of(state),
        vec![fill(30, 20, RED), fill(20, 10, GREEN), fill(1, 1, BLUE)]
    );
}

#[test]
fn a_background_without_a_child_is_painted_alone() {
    let mut c = Container::default().color(RED);
    c.layout(BoxConstraints::tight(Size { width: 64, height: 48 })).unwrap();
    let mut state = State::new(Render::new(200, 200));
    assert!(c.paint(&mut state).is_ok());
    assert_eq!(frame_of(state), vec![fill(64, 48, RED)]);
}

#[test]
fn the_background_has_the_size_of_the_last_successful_layout() {
    let mut c = Container::default().color(RED).size(50, 30);
    let mut state = State::new(Render::new(200, 200));
    assert!(c.paint(&mut state).is_ok());
    c.layout(BoxConstraints::loose(Size { width: 200, height: 200 })).unwrap();
    assert!(c.paint(&mut state).is_ok());
    assert!(c.layout(BoxConstraints::loose(Size { width: 20, height: 20 })).is_err());
    assert!(c.paint(&mut state).is_ok());
    assert_eq!(
        frame_of(state),
        vec![fill(0, 0, RED), fill(50, 30, RED), fill(50, 30, RED)]
    );
}

#[test]
fn a_container_without_colour_paints_only_its_child() {
    let (child, _) = leaf(GREEN);
    let mut c = Container::default().child(child).size(50, 30);
    c.layout(BoxConstraints::loose(Size { width: 200, height: 200 })).unwrap();
    let mut state = State::new(Render::new(200, 200));
    assert!(c.paint(&mut state).is_ok());
    assert_eq!(frame_of(state), vec![fill(1, 1, GREEN)]);
}

#[test]
fn an_empty_container_paints_nothing() {
    let c = Container::default();
    let mut state = State::new(Render::new(200, 200));
    assert!(c.paint(&mut state).is_ok());
    assert_eq!(frame_of(state), vec![]);
    let mut detached = State::new(Render::new(200, 200));
    let _ = detached.end_frame();
    assert!(c.paint(&mut detached).is_ok());
    assert!(c.build(&mut detached).is_ok());
}

#[test]
fn a_background_on_a_detached_context_is_state_not_found() {
    let (child, _) = leaf(GREEN);
    let c = Container::default().child(child).color(RED);
    let mut state = State::new(Render::new(200, 200));
    let mut render = state.end_frame().expect("the context was attached");
    let r = c.paint(&mut state);
    assert!(matches!(r, Err(Error::State(StateError::StateNotFound))));
    assert!(state.render().is_none());
    assert_eq!(render.render(), vec![]);
}

#[test]
fn the_paint_error_of_the_child_is_passed_on_after_the_background() {
    let builds = Rc::new(Cell::new(0));
    let child = Leaf { color: GREEN, builds, build_fails: false, paint_fails: true };
    let mut c = Container::default().child(Box::new(child)).color(RED).size(5, 5);
    c.layout(BoxConstraints::loose(Size { width: 200, height: 200 })).unwrap();
    let mut state = State::new(Render::new(200, 200));
    let r = c.paint(&mut state);
    assert!(matches!(r, Err(Error::Render(RenderError::AdapterNotFound))));
    assert_eq!(frame_of(state), vec![fill(5, 5, RED)]);
}

#[test]
fn build_reaches_the_child_and_records_nothing() {
    let (child, builds) = leaf(GREEN);
    let inner = Container::default().child(child).color(BLUE);
    let outer = Container::default().child(Box::new(inner)).color(RED);
    let mut state = State::new(Render::new(200, 200));
    assert!(outer.build(&mut state).is_ok());
    assert_eq!(builds.get(), 1);
    assert!(outer.build(&mut state).is_ok());
    assert_eq!(builds.get(), 2);
    assert_eq!(frame_of(state), vec![]);
}

#[test]
fn the_build_error_of_the_child_is_passed_on_as_it_is() {
    let builds = Rc::new(Cell::new(0));
    let child = Leaf { color: GREEN, builds: builds.clone(), build_fails: true, paint_fails: false };
    let outer = Container::default().child(Box::new(child));
    let mut state = State::new(Render::new(200, 200));
    match outer.build(&mut state) {
        Err(Error::Widget(WidgetError::BuildError(reason))) => assert_eq!(reason, "no font"),
        other => panic!("built with {:?}", other),
    }
    assert_eq!(builds.get(), 1);
}
