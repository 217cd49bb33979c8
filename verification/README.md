# cart

The logic of a small space-trading game for the WASM-4 console, verified
with Verus.

- `src/` is the library. Its modules cover the gamepad (`buttons`), the items
  traded (`items`), planets and their markets (`planets`), the player's ship
  (`player`), the hash maps that hold stocks and cargo (`stock`), the landing
  screens (`gamemode_landed` with its three menus, `landed_menu`,
  `landed_planet_view`), steering (`gamemode_flying`), pixel plotting
  (`graphics`), sprite tables (`planet_sprite`, `planets::planet_b`) and the
  game as a whole (`game`). Every function carries a contract; the laws of the
  game (goods are conserved by trades, counters stay in range, menus stay on
  their lines) are proof functions beside the code they speak of.
- `tests/` exercises the library on concrete values.
- `app/` is the cartridge itself: the console bindings, the floating-point
  scene of the flying mode, and drawing.
