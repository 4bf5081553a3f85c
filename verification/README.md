# alarm_gateway

Gateway of a smart home alarm. An Arduino acquisition unit exposes the
button, the motion sensor and an RFID reader as I2C registers; the gateway
(a Raspberry Pi) decides the security state, keeps the badge registry, drives
an LCD front panel with a knob and a button, and offers a terminal interface.

## Layout

- `src/` is the verified library (Verus):
  - `arduino_consts`, `arduino`: the register map, the request frames and the
    checksummed read responses;
  - `controller`: one polling round, from what was read to the next state and
    the actions to carry out;
  - `badges`, `rows`, `datetime`: the badge registry, its table rows and the
    RFC 3339 dates they hold;
  - `lcd_controller`, `lcd`, `grovepi`: the front panel's screens and menu as
    a step-by-step dialogue, the LCD power-up sequence and the GrovePi frames;
  - `badge_menu`, `menu`, `keys`, `screens`, `tab_bar`, `tui_logger`, `log_menu`: the
    terminal tabs, their key handling and the text they show;
  - `monitor`: the status line of the sensor monitor;
  - `laws`: properties that span several operations.
- `app/` is the program around it: I2C through `rppal`, the SQLite table
  through `rusqlite`, the Discord alert, logging, and drawing with `ratatui`.
- `tests/` exercises the library on concrete values.

## Running

`alarm-gateway` runs as a daemon; `--tui` adds the terminal interface,
`--monitor` only prints the sensors, and `--webhook-url` names the Discord
webhook that receives intrusion alerts.
