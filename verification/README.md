# rpg_battle

A turn-based battle game: player characters and computer-controlled enemies
take turns using moves, carry status effects and hold items.

- `src/` is the verified library (Verus). It holds the game's rules that do not
  compute with floating-point stats: move and effect data, the `name|priority`
  text form of moves and the dictionary by which a received move is found again,
  the effect list and held-item slot of a combatant, the turn order and round
  state machine of a battle, the enemy's choice among scored moves, message
  types and the framing of received bytes. Stats are a type parameter.
- `app/` is the game around it: `f32` stats and their arithmetic (damage,
  healing, levels, move scores), console input, the TCP server and the JSON
  wire form of messages.
- `tests/` exercises the library on concrete values.
