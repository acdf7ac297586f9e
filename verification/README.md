# atomcad

The application core of atomCAD, verified with Verus.

- `src/app.rs`: the application object `App<R>` (name, runner, plugin
  registry), `AppExit` and its non-zero `ErrorStatus`, the default runner
  `run_once`, and the laws of plugin registration.
- `src/plugin.rs`: the `Plugin` trait, closures as plugins, and the trusted
  items for `std::any::TypeId`.
- `src/menu.rs`, `src/platform/menubar.rs`: menu blueprints and the
  platform menubar hooks over winit's event-loop builder and window.
- `src/platform_impl.rs`: the web platform marker `PlatformDetails`.
- `app/lib.rs`: boxed closures as runners (`App` = `atomcad::App<BoxedRunner>`),
  plugin registration that panics on a duplicate, and the browser window size.

The runner of an application is a closure over the application itself. Verus
rejects a type that stores a callback taking that same type, so `App` is
generic over its runner type `R: AppRunner`; `app/` supplies the boxed closure.
