# hwtools

The verified core of HW Tools, a hardware diagnostic application for the
Precursor device running Xous: a system monitor (battery, EC and SoC
information, ADC readings, accelerometer), a GPIO tester and a UART monitor
in three tabs.

- `src/` is the library, verified with Verus. It holds every decision the
  application makes and every screen it draws:
  - `storage`: the 9-byte settings record, its encoding and decoding;
  - `app`: the tab state machine, key routing, refresh routing, saving the
    session, and the full-screen and content layouts;
  - `system_tab`, `gpio_tab`, `uart_tab`: each tab's state, key handling,
    refresh and layout, and the events a key press reports (pin changes,
    ADC readings, log cleared, capture paused, mux selected, bytes to send);
  - `ui`: drawing primitives and the shared drawing helpers;
  - `text`: decimal and hexadecimal rendering of numbers;
  - `control`: message codes, the main loop's redraw and focus decisions,
    the refresh pump, decoding of raw key messages.
- `app/` is the Xous program: it connects to the GAM, LLIO, COM, PDDB and
  ticktimer services, runs the message loops, performs what the library asks
  for (routing the UART mux, logging the events, among them the typed
  bytes, which go out on the log as `TX: ...`, since the Xous services give an
  application no write access to the routed UART) and
  renders the drawing commands it computes.
- `tests/` runs the library on concrete values.
