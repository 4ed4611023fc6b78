# firmware

Game logic of an ESP32-C3 soup game with a WS2812 LED strip, four reaction
buttons and an ST7735s screen.

- `src/` is the verified library. Each task (`game::GameFlow`,
  `buttons::ReactionGame`) is a state machine: it asks for an action
  (read the shared state, sleep, draw a random number, write the LEDs, ...)
  and is handed what came of it. `display` says what to draw for a state,
  `ws2812` says which timer register operations pace the LED strip, and
  `state` holds the shared application state.
- `app/` is the firmware around it: the embassy tasks that carry out those
  actions on the hardware, the peripheral set-up, and the adapters to the
  `embedded-hal` 0.2 traits that the WS2812 driver expects.
